use internet_radio_mcp::call::{Pending, Playback, PlaybackStep, Step};
use internet_radio_mcp::error::{InternetRadioMcpError, McpError, RadioError};
use internet_radio_mcp::json::{entry, object, text, Json};
use internet_radio_mcp::models::Station;
use internet_radio_mcp::playback::NowPlaying;
use internet_radio_mcp::service::RadioService;
use internet_radio_mcp::tools::{
    radio_search_schema, radio_stop_schema, Reply, ToolRegistry,
};

const UUID: &str = "550e8400-e29b-41d4-a716-446655440000";

fn args(members: &[(&str, &str)]) -> Json {
    object(members.iter().map(|(key, value)| entry(key, text(value))).collect())
}

fn member<'a>(value: &'a Json, key: &str) -> &'a Json {
    match value {
        Json::Object(members) => {
            &members.iter().find(|(name, _)| name == key).expect("member").1
        }
        other => panic!("expected an object, got {:?}", other),
    }
}

fn items(value: &Json) -> &Vec<Json> {
    match value {
        Json::Array(items) => items,
        other => panic!("expected an array, got {:?}", other),
    }
}

fn text_of(reply: &Json) -> &str {
    member(&items(member(reply, "content"))[0], "text").as_str().unwrap()
}

fn finished(step: Step<Reply, InternetRadioMcpError>) -> Result<Reply, InternetRadioMcpError> {
    match step {
        Step::Finished(reply) => reply,
        other => panic!("expected the call to be over, got {:?}", other),
    }
}

fn run(
    registry: &ToolRegistry,
    np: &mut NowPlaying<u32>,
    name: &str,
    arguments: &Json,
) -> Result<Reply, InternetRadioMcpError> {
    let playback = match registry.execute_tool(name, arguments) {
        Step::Finished(reply) => return reply,
        Step::Playback(playback) => playback,
        other => panic!("unexpected step {:?}", other),
    };
    let mut step = registry.begin_playback(np, playback);
    loop {
        step = match step {
            PlaybackStep::StopPrior { target, .. } => registry.prior_stopped(target),
            PlaybackStep::Spawn { target, .. } => registry.player_spawned(np, target, Ok(7)),
            PlaybackStep::StopTracked { .. } => return registry.tracked_stopped(np, Ok(())),
            PlaybackStep::Finished(reply) => return reply,
        };
    }
}

#[test]
fn test_list_tools_returns_four() {
    let registry = ToolRegistry::new();
    let tools = registry.list_tools();
    let arr = items(&tools);
    assert_eq!(arr.len(), 4);
    let names: Vec<&str> = arr.iter().filter_map(|t| member(t, "name").as_str()).collect();
    assert!(names.contains(&"radio_search"));
    assert!(names.contains(&"radio_play"));
    assert!(names.contains(&"radio_stop"));
    assert!(names.contains(&"radio_now_playing"));
}

#[test]
fn tools_test_tool_not_found() {
    let registry = ToolRegistry::new();
    let res = finished(registry.execute_tool("nonexistent_tool", &args(&[])));
    assert!(res.is_err());
    let msg = res.err().unwrap().to_string();
    assert!(msg.contains("not found"));
    assert_eq!(msg, "MCP error: Tool not found: nonexistent_tool");
}

#[test]
fn tools_test_search_missing_query() {
    let registry = ToolRegistry::new();
    let res = finished(registry.execute_tool("radio_search", &args(&[])));
    assert!(res.is_err());
    let msg = res.err().unwrap().to_string();
    assert!(msg.contains("query"));
}

#[test]
fn tools_test_play_missing_url_and_uuid() {
    let registry = ToolRegistry::new();
    let res = finished(registry.execute_tool("radio_play", &args(&[])));
    assert!(res.is_err());
    let msg = res.err().unwrap().to_string();
    assert!(msg.contains("url") || msg.contains("uuid"));
}

#[test]
fn tools_test_play_invalid_uuid_rejected() {
    let registry = ToolRegistry::new();
    let res = finished(registry.execute_tool("radio_play", &args(&[("uuid", "../../etc/passwd")])));
    assert!(res.is_err());
    let msg = res.err().unwrap().to_string();
    assert!(
        msg.to_lowercase().contains("uuid") || msg.to_lowercase().contains("invalid"),
        "unexpected error: {msg}"
    );
}

#[test]
fn tools_test_play_file_url_rejected() {
    let registry = ToolRegistry::new();
    let mut np: NowPlaying<u32> = NowPlaying::default();
    let res = run(&registry, &mut np, "radio_play", &args(&[("url", "file:///etc/passwd")]));
    assert!(res.is_err());
    let msg = res.err().unwrap().to_string();
    assert!(
        msg.contains("http") || msg.contains("allowed"),
        "unexpected error: {msg}"
    );
}

#[test]
fn tools_test_stop_when_nothing_playing() {
    let registry = ToolRegistry::new();
    let mut np: NowPlaying<u32> = NowPlaying::default();
    let res = run(&registry, &mut np, "radio_stop", &args(&[]));
    assert!(res.is_ok(), "stop with nothing playing should be a no-op");
    let (val, changed) = res.unwrap();
    let text = text_of(&val);
    assert!(text.contains("stopped") || text.contains("Playback"));
    assert!(!changed);
}

#[test]
fn tools_test_now_playing_default() {
    let registry = ToolRegistry::new();
    let mut np: NowPlaying<u32> = NowPlaying::default();
    let (result, _) = run(&registry, &mut np, "radio_now_playing", &args(&[])).unwrap();
    let text = text_of(&result);
    assert!(text.contains("Nothing") || text.contains("playing"));
}

#[test]
fn tools_test_now_playing_no_pid_in_output() {
    let registry = ToolRegistry::new();
    let mut np: NowPlaying<u32> = NowPlaying::default();
    let (result, _) = run(&registry, &mut np, "radio_now_playing", &args(&[])).unwrap();
    let text = text_of(&result);
    assert!(
        !text.contains("pid:"),
        "PID should not appear in now_playing output, got: {text}"
    );
}

#[test]
fn tools_test_play_malformed_uuid_returns_error() {
    let registry = ToolRegistry::new();
    // 35 chars — wrong length
    let res = finished(registry.execute_tool(
        "radio_play",
        &args(&[("uuid", "550e8400-e29b-41d4-a716-44665544000")]),
    ));
    assert!(res.is_err());
    let msg = res.err().unwrap().to_string();
    assert!(
        msg.to_lowercase().contains("uuid") || msg.to_lowercase().contains("invalid"),
        "expected uuid/invalid error, got: {msg}"
    );
}

#[test]
fn tools_test_search_schema_limit_is_integer() {
    let schema = radio_search_schema();
    let properties = member(member(&schema, "inputSchema"), "properties");
    let limit_type = member(member(properties, "limit"), "type").as_str().unwrap();
    assert_eq!(limit_type, "integer");
}

#[test]
fn tools_test_stop_schema_description_accurate() {
    let schema = radio_stop_schema();
    let desc = member(&schema, "description").as_str().unwrap();
    assert!(
        !desc.contains("kills all mpv"),
        "description should not say 'kills all mpv', got: {desc}"
    );
}

#[test]
fn tools_test_search_schema_includes_genre_enum() {
    let schema = radio_search_schema();
    let properties = member(member(&schema, "inputSchema"), "properties");
    let by_enum = items(member(member(properties, "by"), "enum"));
    let values: Vec<&str> = by_enum.iter().filter_map(|v| v.as_str()).collect();
    assert!(
        values.contains(&"genre"),
        "schema should include 'genre' as a valid 'by' value"
    );
}

#[test]
fn registry_rejects_arguments_that_are_no_object() {
    let registry = ToolRegistry::default();
    assert!(matches!(
        finished(registry.execute_tool("radio_stop", &Json::Array(vec![]))),
        Err(InternetRadioMcpError::Mcp(McpError::InvalidToolParameters(msg)))
            if msg == "Arguments must be an object"
    ));
}

#[test]
fn registry_asks_the_public_directory() {
    let registry = ToolRegistry::new();
    match registry.execute_tool("radio_play", &args(&[("uuid", UUID)])) {
        Step::Fetch { request, pending: Pending::Lookup { uuid } } => {
            assert_eq!(
                request.url,
                format!("https://de1.api.radio-browser.info/json/stations/byuuid/{}", UUID)
            );
            assert_eq!(uuid, UUID);
        }
        other => panic!("expected a request, got {other:?}"),
    }
}

#[test]
fn registry_shows_stations() {
    let registry = ToolRegistry::new();
    let pending = match registry.execute_tool("radio_search", &args(&[("query", "jazz")])) {
        Step::Fetch { pending, .. } => pending,
        other => panic!("expected a request, got {other:?}"),
    };
    let pending = match registry.directory_responded(pending, Ok(200)) {
        Step::ReadBody { pending } => pending,
        other => panic!("expected the body to be read, got {other:?}"),
    };
    let found = Station {
        uuid: UUID.to_string(),
        name: "Test Jazz Radio".to_string(),
        url_resolved: "https://stream.example.com/jazz128".to_string(),
        country: String::new(),
        tags: String::new(),
        bitrate: 0,
        codec: String::new(),
        votes: 0,
    };
    let (reply, changed) =
        finished(registry.directory_body_read(pending, Ok(vec![found]))).unwrap();
    assert!(!changed);
    let piece = &items(member(&reply, "content"))[0];
    assert_eq!(member(piece, "type").as_str(), Some("json"));
    let shown = items(member(piece, "value"));
    assert_eq!(shown.len(), 1);
    assert_eq!(member(&shown[0], "name").as_str(), Some("Test Jazz Radio"));
}

#[test]
fn registry_lists_no_more_than_asked_for() {
    let registry = ToolRegistry::new();
    let arguments = object(vec![entry("query", text("jazz")), entry("limit", Json::Unsigned(2))]);
    let pending = match registry.execute_tool("radio_search", &arguments) {
        Step::Fetch { pending, .. } => pending,
        other => panic!("expected a request, got {other:?}"),
    };
    let found = |name: &str, votes: i64| Station {
        uuid: UUID.to_string(),
        name: name.to_string(),
        url_resolved: String::new(),
        country: String::new(),
        tags: String::new(),
        bitrate: 0,
        codec: String::new(),
        votes,
    };
    let body = Ok(vec![found("A", 1), found("B", 3), found("C", 2)]);
    let (reply, _) = finished(registry.directory_body_read(pending, body)).unwrap();
    let shown = items(member(&items(member(&reply, "content"))[0], "value"));
    let names: Vec<&str> = shown.iter().filter_map(|s| member(s, "name").as_str()).collect();
    assert_eq!(names, vec!["A", "B"]);
}

#[test]
fn registry_rejects_both_address_and_uuid() {
    let registry = ToolRegistry::new();
    let both = args(&[("url", "http://a.example/"), ("uuid", UUID)]);
    assert!(matches!(
        finished(registry.execute_tool("radio_play", &both)),
        Err(InternetRadioMcpError::Mcp(McpError::InvalidToolParameters(msg)))
            if msg == "Exactly one of 'url' or 'uuid' is required"
    ));
}

#[test]
fn registry_keeps_errors_as_they_are() {
    let registry = ToolRegistry::new();
    assert!(matches!(
        finished(registry.directory_responded(
            Pending::Search { query: "jazz".to_string(), limit: 10 },
            Err("timed out".to_string())
        )),
        Err(InternetRadioMcpError::Radio(RadioError::ApiError(msg))) if msg == "timed out"
    ));
    assert!(matches!(
        finished(registry.directory_body_read(
            Pending::Lookup { uuid: UUID.to_string() },
            Ok(vec![])
        )),
        Err(InternetRadioMcpError::Mcp(McpError::InvalidToolParameters(msg)))
            if msg == format!("Station UUID not found: {}", UUID)
    ));
    assert!(matches!(
        finished(registry.directory_responded(
            Pending::Lookup { uuid: UUID.to_string() },
            Ok(404)
        )),
        Err(InternetRadioMcpError::Radio(RadioError::ApiError(msg)))
            if msg == "HTTP 404 Not Found from Radio Browser"
    ));
}

#[test]
fn registry_plays_and_stops() {
    let registry = ToolRegistry::new();
    let mut np: NowPlaying<u32> = NowPlaying::default();
    let jazz = args(&[("url", "https://stream.example.com/jazz128"), ("name", "Jazz FM")]);
    let (reply, _) = run(&registry, &mut np, "radio_play", &jazz).unwrap();
    assert_eq!(text_of(&reply), "▶ Now playing: Jazz FM (https://stream.example.com/jazz128)");
    assert!(matches!(
        registry.execute_tool("radio_stop", &Json::Null),
        Step::Playback(Playback::Stop)
    ));
    let (reply, _) = run(&registry, &mut np, "radio_stop", &Json::Null).unwrap();
    assert_eq!(text_of(&reply), "⏹ Playback stopped.");
    assert!(np.child.is_none() && np.station.is_none());
}

#[test]
fn registry_asks_what_the_service_asks() {
    let registry = ToolRegistry::new();
    let service = RadioService::new(None);
    let arguments = args(&[("query", "jazz"), ("by", "genre")]);
    let asked = match registry.execute_tool("radio_search", &arguments) {
        Step::Fetch { request, .. } => request,
        other => panic!("expected a request, got {other:?}"),
    };
    let also_asked = match service.call_tool("radio_search", &arguments) {
        Step::Fetch { request, .. } => request,
        other => panic!("expected a request, got {other:?}"),
    };
    assert_eq!(asked.url, also_asked.url);
    assert_eq!(asked.query, also_asked.query);
    assert_eq!(asked.user_agent, also_asked.user_agent);
}
