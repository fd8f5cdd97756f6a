use internet_radio_mcp::call::{Pending, Playback, PlaybackStep, Step};
use internet_radio_mcp::error::{InternetRadioMcpError, RadioError};
use internet_radio_mcp::json::{entry, object, text, Json};
use internet_radio_mcp::models::Station;
use internet_radio_mcp::playback::{NowPlaying, StreamTarget};
use internet_radio_mcp::ranking::best_voted;
use internet_radio_mcp::service::{
    record_upstream_failure, upstream_failure_reason, CallError, Content, CounterIncrement,
    RadioService, ToolReply,
};
use internet_radio_mcp::{build_service, server_config};

const UUID: &str = "550e8400-e29b-41d4-a716-446655440000";

fn args(members: &[(&str, &str)]) -> Json {
    object(members.iter().map(|(key, value)| entry(key, text(value))).collect())
}

fn finished(step: Step<ToolReply, CallError>) -> Result<ToolReply, CallError> {
    match step {
        Step::Finished(reply) => reply,
        other => panic!("expected the call to be over, got {:?}", other),
    }
}

/// Run a call that asks nothing of the directory, with a player that starts as
/// `spawn` says and always stops.
fn run(
    svc: &RadioService,
    np: &mut NowPlaying<u32>,
    name: &str,
    arguments: &Json,
    spawn: Result<u32, String>,
) -> Result<ToolReply, CallError> {
    match svc.call_tool(name, arguments) {
        Step::Finished(reply) => reply,
        Step::Playback(playback) => run_playback(svc, np, playback, spawn),
        other => panic!("unexpected step {:?}", other),
    }
}

fn run_playback(
    svc: &RadioService,
    np: &mut NowPlaying<u32>,
    playback: Playback,
    spawn: Result<u32, String>,
) -> Result<ToolReply, CallError> {
    let mut step = svc.begin_playback(np, playback).step;
    loop {
        step = match step {
            PlaybackStep::StopPrior { target, .. } => svc.prior_stopped(target).step,
            PlaybackStep::Spawn { target, .. } => {
                svc.player_spawned(np, target, spawn.clone()).step
            }
            PlaybackStep::StopTracked { .. } => return svc.tracked_stopped(np, Ok(())),
            PlaybackStep::Finished(reply) => return reply,
        };
    }
}

fn text_of(reply: &ToolReply) -> &str {
    match &reply.content[0] {
        Content::Text(t) => t.as_str(),
        other => panic!("expected text content, got {:?}", other),
    }
}

fn member<'a>(value: &'a Json, key: &str) -> &'a Json {
    match value {
        Json::Object(members) => {
            &members.iter().find(|(name, _)| name == key).expect("member").1
        }
        other => panic!("expected an object, got {:?}", other),
    }
}

fn labels(increment: &CounterIncrement) -> Vec<(&'static str, &'static str)> {
    increment.labels.clone()
}

fn station(name: &str, url: &str) -> Station {
    Station {
        uuid: "00000000-0000-4000-8000-000000000001".to_string(),
        name: name.to_string(),
        url_resolved: url.to_string(),
        country: "Testland".to_string(),
        tags: "jazz,test".to_string(),
        bitrate: 128,
        codec: "MP3".to_string(),
        votes: -42,
    }
}

#[test]
fn build_service_exposes_tools() {
    let svc = build_service(None);
    assert!(
        !svc.tools().is_empty(),
        "radio build_service() must expose at least one tool"
    );
}

#[test]
fn test_tools_returns_four() {
    let svc = RadioService::new(None);
    assert_eq!(svc.tools().len(), 4);
    let tool_defs = svc.tools();
    let names: Vec<&str> = tool_defs.iter().map(|t| t.name.as_str()).collect();
    assert!(names.contains(&"radio_search"));
    assert!(names.contains(&"radio_play"));
    assert!(names.contains(&"radio_stop"));
    assert!(names.contains(&"radio_now_playing"));
}

#[test]
fn service_test_tool_not_found() {
    let svc = RadioService::new(None);
    match finished(svc.call_tool("nonexistent_tool", &args(&[]))) {
        Err(CallError::Tool(msg)) => {
            assert!(msg.contains("unknown tool"));
            assert_eq!(msg, "unknown tool: nonexistent_tool");
        }
        other => panic!("expected Tool error, got {other:?}"),
    }
}

#[test]
fn service_test_search_missing_query() {
    let svc = RadioService::new(None);
    match finished(svc.call_tool("radio_search", &args(&[]))) {
        Err(CallError::InvalidParams(msg)) => assert!(msg.contains("query")),
        other => panic!("expected InvalidParams, got {other:?}"),
    }
}

#[test]
fn service_test_play_missing_url_and_uuid() {
    let svc = RadioService::new(None);
    match finished(svc.call_tool("radio_play", &args(&[]))) {
        Err(CallError::InvalidParams(msg)) => {
            assert!(msg.contains("url") || msg.contains("uuid"));
            assert_eq!(msg, "provide either 'url' or 'uuid' to play a station");
        }
        other => panic!("expected InvalidParams, got {other:?}"),
    }
}

#[test]
fn service_test_play_invalid_uuid_rejected() {
    let svc = RadioService::new(None);
    let res = finished(svc.call_tool("radio_play", &args(&[("uuid", "../../etc/passwd")])));
    assert!(
        matches!(res, Err(CallError::InvalidParams(_))),
        "expected InvalidParams, got {res:?}"
    );
}

#[test]
fn service_test_play_file_url_rejected() {
    let svc = RadioService::new(None);
    let mut np: NowPlaying<u32> = NowPlaying::default();
    let res = run(
        &svc,
        &mut np,
        "radio_play",
        &args(&[("url", "file:///etc/passwd")]),
        Ok(1),
    );
    match res {
        Err(CallError::Tool(msg)) => {
            assert!(
                msg.contains("http") || msg.contains("allowed"),
                "unexpected: {msg}"
            )
        }
        other => panic!("expected Tool error, got {other:?}"),
    }
}

#[test]
fn service_test_stop_when_nothing_playing() {
    let svc = RadioService::new(None);
    let mut np: NowPlaying<u32> = NowPlaying::default();
    let res = run(&svc, &mut np, "radio_stop", &args(&[]), Ok(1));
    let reply = res.expect("stop with nothing playing should be a no-op");
    assert!(!reply.is_error);
    let text = text_of(&reply);
    assert!(text.contains("stopped") || text.contains("Playback"));
    assert_eq!(text, "⏹ Playback stopped.");
}

#[test]
fn service_test_now_playing_default() {
    let svc = RadioService::new(None);
    let mut np: NowPlaying<u32> = NowPlaying::default();
    let reply = run(&svc, &mut np, "radio_now_playing", &args(&[]), Ok(1)).unwrap();
    let text = text_of(&reply);
    assert!(text.contains("Nothing") || text.contains("playing"));
    assert_eq!(text, "⏹ Nothing is currently playing.");
}

#[test]
fn service_test_now_playing_no_pid_in_output() {
    let svc = RadioService::new(None);
    let mut np: NowPlaying<u32> = NowPlaying::default();
    let reply = run(&svc, &mut np, "radio_now_playing", &args(&[]), Ok(1)).unwrap();
    let text = text_of(&reply);
    assert!(
        !text.contains("pid:"),
        "PID should not appear in now_playing output, got: {text}"
    );
}

#[test]
fn service_test_play_malformed_uuid_returns_error() {
    let svc = RadioService::new(None);
    // 35 chars — wrong length
    let res = finished(svc.call_tool(
        "radio_play",
        &args(&[("uuid", "550e8400-e29b-41d4-a716-44665544000")]),
    ));
    assert!(
        matches!(res, Err(CallError::InvalidParams(_))),
        "expected InvalidParams, got {res:?}"
    );
}

#[test]
fn service_test_search_schema_limit_is_integer() {
    let svc = RadioService::new(None);
    let tools = svc.tools();
    let search = tools.iter().find(|t| t.name == "radio_search").unwrap();
    let limit = member(member(&search.input_schema, "properties"), "limit");
    let limit_type = member(limit, "type").as_str().unwrap();
    assert_eq!(limit_type, "integer");
}

#[test]
fn service_test_stop_schema_description_accurate() {
    let svc = RadioService::new(None);
    let tools = svc.tools();
    let stop = tools.iter().find(|t| t.name == "radio_stop").unwrap();
    assert!(
        !stop.description.contains("kills all mpv"),
        "description should not say 'kills all mpv', got: {}",
        stop.description
    );
}

#[test]
fn service_test_search_schema_includes_genre_enum() {
    let svc = RadioService::new(None);
    let tools = svc.tools();
    let search = tools.iter().find(|t| t.name == "radio_search").unwrap();
    let by = member(member(&search.input_schema, "properties"), "by");
    let values: Vec<&str> = match member(by, "enum") {
        Json::Array(items) => items.iter().filter_map(|v| v.as_str()).collect(),
        other => panic!("expected an array, got {other:?}"),
    };
    assert!(
        values.contains(&"genre"),
        "schema should include 'genre' as a valid 'by' value"
    );
}

#[test]
fn test_non_object_args_invalid_params() {
    let svc = RadioService::new(None);
    let res = finished(svc.call_tool("radio_search", &text("not an object")));
    assert!(
        matches!(res, Err(CallError::InvalidParams(_))),
        "expected InvalidParams for non-object args, got {res:?}"
    );
}

#[test]
fn test_server_config_has_nonempty_instructions() {
    let cfg = server_config("0.1.0");
    let instructions = cfg
        .instructions
        .expect("server config must set an instructions blurb");
    assert!(
        !instructions.trim().is_empty(),
        "instructions must be non-empty"
    );
    assert!(
        instructions.contains("radio_search"),
        "instructions should name radio_search, got: {instructions}"
    );
    assert!(
        instructions.contains("radio_play"),
        "instructions should name radio_play, got: {instructions}"
    );
    assert_eq!(cfg.name, "internet-radio-mcp");
    assert_eq!(cfg.version, "0.1.0");
    assert!(cfg.websocket);
}

#[test]
fn test_radio_search_description_leads_with_purpose() {
    let svc = RadioService::new(None);
    let tools = svc.tools();
    let search = tools
        .iter()
        .find(|t| t.name == "radio_search")
        .expect("radio_search tool must exist");
    let d = search.description.to_lowercase();
    assert!(
        d.contains("listen"),
        "description should surface the natural 'listen' intent, got: {}",
        search.description
    );
    assert!(
        d.contains("radio_play"),
        "description should point to radio_play for the search -> play flow, got: {}",
        search.description
    );
    assert!(
        d.contains("genre"),
        "description should name the genre search dimension, got: {}",
        search.description
    );
}

#[test]
fn test_play_uuid_injection_rejected() {
    let svc = RadioService::new(None);
    let res = finished(svc.call_tool(
        "radio_play",
        &args(&[("uuid", "550e8400-e29b-41d4-a716-4466554?0000")]),
    ));
    assert!(
        matches!(res, Err(CallError::InvalidParams(_))),
        "expected InvalidParams for injection uuid, got {res:?}"
    );
}

// ── upstream-failure classification ──────────────────────────────────────────

#[test]
fn upstream_failure_reason_counts_directory_and_player_faults() {
    assert_eq!(
        upstream_failure_reason(&InternetRadioMcpError::Radio(RadioError::ApiError("x".into()))),
        Some("directory"),
        "a Radio Browser API fault must count as an upstream failure"
    );
    assert_eq!(
        upstream_failure_reason(&InternetRadioMcpError::Radio(RadioError::PlayerError(
            "x".into()
        ))),
        Some("player"),
        "an mpv player fault must count as an upstream failure"
    );
}

#[test]
fn upstream_failure_reason_excludes_no_stations_found() {
    assert_eq!(
        upstream_failure_reason(&InternetRadioMcpError::Radio(RadioError::NoStationsFound(
            "x".into()
        ))),
        None,
        "an empty ('no stations found') result must not count as an upstream failure"
    );
}

#[test]
fn record_upstream_failure_increments_only_for_counted_reasons() {
    let ok: Result<Vec<Station>, InternetRadioMcpError> = Ok(vec![]);
    let not_found: Result<Vec<Station>, InternetRadioMcpError> =
        Err(InternetRadioMcpError::Radio(RadioError::NoStationsFound("x".into())));
    assert!(
        record_upstream_failure("radio_search", &ok).is_none()
            && record_upstream_failure("radio_search", &not_found).is_none(),
        "a success or an empty-result decline must not move the counter"
    );

    let api_failed: Result<Vec<Station>, InternetRadioMcpError> =
        Err(InternetRadioMcpError::Radio(RadioError::ApiError("x".into())));
    let counted = record_upstream_failure("radio_search", &api_failed)
        .expect("a directory fault must increment the counter, labelled by tool and reason");
    assert_eq!(counted.counter, "radio.upstream_failures");
    assert_eq!(labels(&counted), vec![("tool", "radio_search"), ("reason", "directory")]);
}

#[test]
fn radio_search_records_directory_upstream_failure() {
    let svc = RadioService::with_radio_browser_base("http://localhost/json".to_string());
    let pending = match svc.call_tool("radio_search", &args(&[("query", "jazz")])) {
        Step::Fetch { request, pending } => {
            assert_eq!(request.url, "http://localhost/json/stations/search");
            pending
        }
        other => panic!("expected a request, got {other:?}"),
    };
    let progress = svc.directory_responded(pending, Ok(503));
    let counted = progress.counted.expect("a directory HTTP fault must increment the counter");
    assert_eq!(counted.counter, "radio.upstream_failures");
    assert_eq!(labels(&counted), vec![("tool", "radio_search"), ("reason", "directory")]);
    match finished(progress.step) {
        Err(CallError::Tool(msg)) => assert_eq!(
            msg,
            "Radio error: Radio Browser API error: HTTP 503 Service Unavailable from Radio Browser"
        ),
        other => panic!("expected Tool error, got {other:?}"),
    }
}

#[test]
fn radio_search_empty_result_does_not_count_as_upstream_failure() {
    let svc = RadioService::with_radio_browser_base("http://localhost/json".to_string());
    let pending = match svc.call_tool("radio_search", &args(&[("query", "no-such-genre")])) {
        Step::Fetch { pending, .. } => pending,
        other => panic!("expected a request, got {other:?}"),
    };
    let progress = svc.directory_responded(pending, Ok(200));
    assert!(progress.counted.is_none());
    let pending = match progress.step {
        Step::ReadBody { pending } => pending,
        other => panic!("expected the body to be read, got {other:?}"),
    };
    let progress = svc.directory_body_read(pending, Ok(vec![]));
    assert!(
        progress.counted.is_none(),
        "an empty ('no stations found') result must not count as an upstream failure"
    );
    match finished(progress.step) {
        Err(CallError::Tool(msg)) => {
            assert_eq!(msg, "Radio error: No stations found for query: no-such-genre")
        }
        other => panic!("expected Tool error, got {other:?}"),
    }
}

// ── arguments ────────────────────────────────────────────────────────────────

fn search_query(arguments: Json) -> Vec<(String, String)> {
    match RadioService::new(None).call_tool("radio_search", &arguments) {
        Step::Fetch { request, .. } => request.query,
        other => panic!("expected a request, got {other:?}"),
    }
}

#[test]
fn search_defaults_to_ten_by_name() {
    let query = search_query(args(&[("query", "jazz")]));
    assert_eq!(query[0], ("name".to_string(), "jazz".to_string()));
    assert_eq!(query[1], ("limit".to_string(), "10".to_string()));
}

#[test]
fn genre_is_an_alias_for_tag() {
    let tag = search_query(args(&[("query", "jazz"), ("by", "tag")]));
    let genre = search_query(args(&[("query", "jazz"), ("by", "genre")]));
    assert_eq!(tag, genre);
    assert_eq!(tag[0], ("tag".to_string(), "jazz".to_string()));
    let other = search_query(args(&[("query", "jazz"), ("by", "Tag")]));
    assert_eq!(other[0], ("name".to_string(), "jazz".to_string()));
}

#[test]
fn search_limit_is_kept_between_one_and_fifty() {
    let limits: Vec<(Json, &str)> = vec![
        (Json::Unsigned(0), "1"),
        (Json::Signed(0), "1"),
        (Json::Unsigned(1), "1"),
        (Json::Unsigned(5), "5"),
        (Json::Signed(5), "5"),
        (Json::Unsigned(50), "50"),
        (Json::Unsigned(51), "50"),
        (Json::Unsigned(u64::MAX), "50"),
        (Json::Signed(-1), "10"),
        (Json::Real("5.5".to_string()), "10"),
        (text("5"), "10"),
        (Json::Null, "10"),
    ];
    for (limit, expected) in limits {
        let query =
            search_query(object(vec![entry("query", text("jazz")), entry("limit", limit)]));
        assert_eq!(query[1], ("limit".to_string(), expected.to_string()));
    }
}

#[test]
fn query_has_to_be_a_text() {
    let svc = RadioService::new(None);
    let arguments = object(vec![entry("query", Json::Unsigned(1))]);
    assert!(matches!(
        finished(svc.call_tool("radio_search", &arguments)),
        Err(CallError::InvalidParams(_))
    ));
}

#[test]
fn no_arguments_are_empty_arguments() {
    let svc = RadioService::new(None);
    let none = finished(svc.call_tool("radio_search", &Json::Null));
    let empty = finished(svc.call_tool("radio_search", &args(&[])));
    assert_eq!(format!("{:?}", none), format!("{:?}", empty));
    assert!(matches!(
        svc.call_tool("radio_stop", &Json::Null),
        Step::Playback(Playback::Stop)
    ));
    assert!(matches!(
        finished(svc.call_tool("radio_stop", &Json::Bool(true))),
        Err(CallError::InvalidParams(msg)) if msg == "arguments must be an object"
    ));
}

#[test]
fn address_and_uuid_exclude_each_other() {
    let svc = RadioService::new(None);
    for uuid in [UUID, "not a uuid", ""] {
        let arguments = args(&[("uuid", uuid), ("url", "http://a.example/")]);
        assert!(matches!(
            finished(svc.call_tool("radio_play", &arguments)),
            Err(CallError::InvalidParams(msg))
                if msg == "exactly one of 'url' or 'uuid' is required"
        ));
    }
    // Only texts count as given.
    let arguments = object(vec![
        entry("uuid", Json::Null),
        entry("url", text("http://a.example/")),
    ]);
    match svc.call_tool("radio_play", &arguments) {
        Step::Playback(Playback::Play(target)) => {
            assert_eq!(target.url, "http://a.example/");
            assert_eq!(target.name, "Unknown station");
            assert_eq!(target.uuid, "");
        }
        other => panic!("expected to play, got {other:?}"),
    }
}

#[test]
fn directory_address_can_be_configured() {
    let uuid = args(&[("uuid", UUID)]);
    let url_of = |svc: RadioService| match svc.call_tool("radio_play", &uuid) {
        Step::Fetch { request, .. } => request.url,
        other => panic!("expected a request, got {other:?}"),
    };
    assert_eq!(
        url_of(RadioService::new(None)),
        format!("https://de1.api.radio-browser.info/json/stations/byuuid/{}", UUID)
    );
    assert_eq!(
        url_of(build_service(Some("http://x".to_string()))),
        format!("http://x/stations/byuuid/{}", UUID)
    );
}

// ── the directory's answers ──────────────────────────────────────────────────

fn search_for(limit: u32) -> Pending {
    Pending::Search { query: "jazz".to_string(), limit }
}

fn voted(name: &str, votes: i64) -> Station {
    Station { votes, ..station(name, "https://a.example/") }
}

/// The items that a search shows of what was found.
fn shown(limit: u32, found: Vec<Station>) -> Vec<Json> {
    let progress = RadioService::new(None).directory_body_read(search_for(limit), Ok(found));
    assert!(progress.counted.is_none());
    match finished(progress.step).unwrap().content.into_iter().next() {
        Some(Content::Json(Json::Array(items))) => items,
        other => panic!("expected an array, got {other:?}"),
    }
}

fn names(items: &[Json]) -> Vec<&str> {
    items.iter().map(|item| member(item, "name").as_str().unwrap()).collect()
}

#[test]
fn search_shows_what_is_known_of_stations() {
    let items = shown(
        10,
        vec![station("A", "https://a.example/"), station("B", "https://b.example/")],
    );
    assert_eq!(items.len(), 2);
    assert_eq!(member(&items[1], "name").as_str(), Some("B"));
    assert_eq!(member(&items[1], "url").as_str(), Some("https://b.example/"));
    assert_eq!(
        member(&items[0], "uuid").as_str(),
        Some("00000000-0000-4000-8000-000000000001")
    );
    assert_eq!(member(&items[0], "country").as_str(), Some("Testland"));
    assert_eq!(member(&items[0], "tags").as_str(), Some("jazz,test"));
    assert_eq!(member(&items[0], "bitrate_kbps").as_u64(), Some(128));
    assert_eq!(member(&items[0], "codec").as_str(), Some("MP3"));
    assert!(matches!(member(&items[0], "votes"), Json::Signed(-42)));
}

#[test]
fn search_shows_best_voted_first() {
    let found = vec![voted("A", 1), voted("B", 7), voted("C", -3), voted("D", 7), voted("E", 2)];
    assert_eq!(names(&shown(50, found)), vec!["B", "D", "E", "A", "C"]);
    assert_eq!(names(&shown(10, vec![voted("A", 1), voted("B", 2)])), vec!["B", "A"]);
}

#[test]
fn search_keeps_to_the_limit() {
    let found = || vec![voted("A", 1), voted("B", 2), voted("C", 3)];
    assert_eq!(names(&shown(1, found())), vec!["C"]);
    assert_eq!(names(&shown(2, found())), vec!["C", "B"]);
    assert_eq!(names(&shown(3, found())), vec!["C", "B", "A"]);
    assert_eq!(names(&shown(4, found())), vec!["C", "B", "A"]);
}

#[test]
fn searched_limit_is_the_one_kept_to() {
    let svc = RadioService::new(None);
    let arguments = object(vec![entry("query", text("jazz")), entry("limit", Json::Unsigned(0))]);
    let (asked, kept) = match svc.call_tool("radio_search", &arguments) {
        Step::Fetch { request, pending: Pending::Search { limit, .. } } => {
            (request.query[1].1.clone(), limit)
        }
        other => panic!("expected a request, got {other:?}"),
    };
    assert_eq!(asked, "1");
    assert_eq!(kept, 1);
}

#[test]
fn best_voted_keeps_what_came_first() {
    let names = |limit: usize, votes: &[i64]| -> Vec<String> {
        let stations =
            votes.iter().enumerate().map(|(i, v)| voted(&i.to_string(), *v)).collect();
        best_voted(stations, limit).into_iter().map(|s| s.name).collect()
    };
    assert!(names(3, &[]).is_empty());
    assert!(names(0, &[1, 2]).is_empty());
    assert_eq!(names(9, &[5, 5, 5]), vec!["0", "1", "2"]);
    assert_eq!(names(9, &[1, 5, 1, 5]), vec!["1", "3", "0", "2"]);
    assert_eq!(names(3, &[1, 5, 1, 5]), vec!["1", "3", "0"]);
    assert_eq!(names(9, &[i64::MIN, i64::MAX, 0]), vec!["1", "2", "0"]);
}

#[test]
fn unreachable_directory_is_counted() {
    let svc = RadioService::new(None);
    let search = svc.directory_responded(
        search_for(10),
        Err("timed out".to_string()),
    );
    assert_eq!(
        labels(&search.counted.unwrap()),
        vec![("tool", "radio_search"), ("reason", "directory")]
    );
    let lookup = svc.directory_responded(
        Pending::Lookup { uuid: UUID.to_string() },
        Err("No stations found".to_string()),
    );
    assert_eq!(
        labels(&lookup.counted.unwrap()),
        vec![("tool", "radio_play"), ("reason", "directory")]
    );
    assert!(matches!(
        finished(lookup.step),
        Err(CallError::Tool(msg))
            if msg == "Radio error: Radio Browser API error: No stations found"
    ));
}

#[test]
fn lookup_plays_the_first_station() {
    let svc = RadioService::new(None);
    let progress = svc.directory_body_read(
        Pending::Lookup { uuid: UUID.to_string() },
        Ok(vec![station("A", "https://a.example/"), station("B", "https://b.example/")]),
    );
    assert!(progress.counted.is_none());
    match progress.step {
        Step::Playback(Playback::Play(target)) => {
            assert_eq!(target.url, "https://a.example/");
            assert_eq!(target.name, "A");
            assert_eq!(target.uuid, UUID);
        }
        other => panic!("expected to play, got {other:?}"),
    }
}

#[test]
fn lookup_without_result_says_not_found() {
    let svc = RadioService::new(None);
    let progress =
        svc.directory_body_read(Pending::Lookup { uuid: UUID.to_string() }, Ok(vec![]));
    assert!(progress.counted.is_none());
    assert!(matches!(
        finished(progress.step),
        Err(CallError::Tool(msg)) if msg == format!("Station UUID not found: {}", UUID)
    ));
}

#[test]
fn refused_lookup_is_counted() {
    let svc = RadioService::new(None);
    let progress =
        svc.directory_responded(Pending::Lookup { uuid: UUID.to_string() }, Ok(503));
    assert_eq!(
        labels(&progress.counted.unwrap()),
        vec![("tool", "radio_play"), ("reason", "directory")]
    );
    assert!(matches!(
        finished(progress.step),
        Err(CallError::Tool(msg))
            if msg == "Radio error: Radio Browser API error: HTTP 503 Service Unavailable \
                       from Radio Browser"
    ));
}

#[test]
fn unreadable_body_is_counted() {
    let svc = RadioService::new(None);
    for message in ["expected value", "No stations found"] {
        let lookup = svc.directory_body_read(
            Pending::Lookup { uuid: UUID.to_string() },
            Err(message.to_string()),
        );
        assert_eq!(
            labels(&lookup.counted.unwrap()),
            vec![("tool", "radio_play"), ("reason", "directory")]
        );
        assert!(matches!(
            finished(lookup.step),
            Err(CallError::Tool(msg))
                if msg == format!("Radio error: Radio Browser API error: {message}")
        ));
        let search = svc.directory_body_read(search_for(10), Err(message.to_string()));
        assert_eq!(
            labels(&search.counted.unwrap()),
            vec![("tool", "radio_search"), ("reason", "directory")]
        );
    }
}

// ── playback ─────────────────────────────────────────────────────────────────

fn jazz() -> Json {
    args(&[("url", "https://stream.example.com/jazz128"), ("name", "Jazz FM")])
}

#[test]
fn playing_reporting_and_stopping() {
    let svc = RadioService::new(None);
    let mut np: NowPlaying<u32> = NowPlaying::default();

    let reply = run(&svc, &mut np, "radio_play", &jazz(), Ok(7)).unwrap();
    assert_eq!(
        text_of(&reply),
        "▶ Now playing: Jazz FM (https://stream.example.com/jazz128)"
    );
    assert_eq!(np.child, Some(7));
    let recorded = np.station.as_ref().unwrap();
    assert_eq!(recorded.name, "Jazz FM");
    assert_eq!(recorded.uuid, "");
    assert_eq!(recorded.bitrate, 0);
    assert_eq!(recorded.votes, 0);

    let reply = run(&svc, &mut np, "radio_now_playing", &Json::Null, Ok(8)).unwrap();
    assert_eq!(
        text_of(&reply),
        "▶ Now playing: Jazz FM — https://stream.example.com/jazz128"
    );

    let reply = run(&svc, &mut np, "radio_stop", &Json::Null, Ok(9)).unwrap();
    assert_eq!(text_of(&reply), "⏹ Playback stopped.");
    assert!(np.child.is_none() && np.station.is_none());

    let reply = run(&svc, &mut np, "radio_now_playing", &Json::Null, Ok(10)).unwrap();
    assert_eq!(text_of(&reply), "⏹ Nothing is currently playing.");
}

#[test]
fn prior_player_is_stopped_before_the_next_starts() {
    let svc = RadioService::new(None);
    let mut np: NowPlaying<u32> = NowPlaying::default();
    run(&svc, &mut np, "radio_play", &jazz(), Ok(7)).unwrap();

    let target = StreamTarget {
        url: "http://other.example/".to_string(),
        name: "Other".to_string(),
        uuid: String::new(),
    };
    let target = match svc.begin_playback(&mut np, Playback::Play(target)).step {
        PlaybackStep::StopPrior { child, target } => {
            assert_eq!(child, 7);
            target
        }
        other => panic!("expected to stop the prior player, got {other:?}"),
    };
    assert!(np.child.is_none());
    match svc.prior_stopped::<u32>(target).step {
        PlaybackStep::Spawn { command, .. } => {
            assert_eq!(command.args[2], "http://other.example/")
        }
        other => panic!("expected to start the player, got {other:?}"),
    }
}

#[test]
fn failed_play_leaves_nothing_playing() {
    let svc = RadioService::new(None);
    let mut np: NowPlaying<u32> = NowPlaying::default();
    run(&svc, &mut np, "radio_play", &jazz(), Ok(7)).unwrap();

    let reply = run(&svc, &mut np, "radio_play", &args(&[("url", "ftp://x")]), Ok(8));
    assert!(matches!(reply, Err(CallError::Tool(_))));
    assert!(np.child.is_none() && np.station.is_none());
    assert_eq!(
        text_of(&svc.exec_radio_now_playing(&np)),
        "⏹ Nothing is currently playing."
    );

    run(&svc, &mut np, "radio_play", &jazz(), Ok(9)).unwrap();
    let reply = run(&svc, &mut np, "radio_play", &jazz(), Err("no mpv".to_string()));
    assert!(matches!(
        reply,
        Err(CallError::Tool(msg))
            if msg == "Radio error: Player error: Failed to spawn mpv: no mpv"
    ));
    assert!(np.child.is_none() && np.station.is_none());
}

#[test]
fn refused_address_is_not_counted() {
    let svc = RadioService::new(None);
    let mut np: NowPlaying<u32> = NowPlaying::default();
    let target = || StreamTarget {
        url: "file:///etc/passwd".to_string(),
        name: "Local".to_string(),
        uuid: String::new(),
    };
    let refused = svc.begin_playback(&mut np, Playback::Play(target()));
    assert!(refused.counted.is_none());
    assert!(matches!(
        refused.step,
        PlaybackStep::Finished(Err(CallError::Tool(msg)))
            if msg == "Radio error: Player error: only http:// and https:// stream URLs \
                       are allowed, got: file"
    ));

    run(&svc, &mut np, "radio_play", &jazz(), Ok(7)).unwrap();
    let stopping = svc.begin_playback(&mut np, Playback::Play(target()));
    assert!(stopping.counted.is_none());
    assert!(matches!(stopping.step, PlaybackStep::StopPrior { child: 7, .. }));
    let refused = svc.prior_stopped::<u32>(target());
    assert!(refused.counted.is_none());
    assert!(matches!(refused.step, PlaybackStep::Finished(Err(CallError::Tool(_)))));
}

/// Play or stop as `deeds` says, and note which players are started and which are
/// handed to the stop.
fn follow(
    svc: &RadioService,
    np: &mut NowPlaying<u32>,
    deeds: Vec<(Json, Result<u32, String>)>,
) -> (Vec<u32>, Vec<u32>) {
    let mut started = Vec::new();
    let mut handed_to_stop = Vec::new();
    for (arguments, spawn) in deeds {
        let name = if matches!(arguments, Json::Null) { "radio_stop" } else { "radio_play" };
        let playback = match svc.call_tool(name, &arguments) {
            Step::Playback(playback) => playback,
            other => panic!("unexpected step {other:?}"),
        };
        let mut step = svc.begin_playback(np, playback).step;
        loop {
            step = match step {
                PlaybackStep::StopPrior { child, target } => {
                    handed_to_stop.push(child);
                    svc.prior_stopped(target).step
                }
                PlaybackStep::Spawn { target, .. } => {
                    started.extend(spawn.clone().ok());
                    svc.player_spawned(np, target, spawn.clone()).step
                }
                PlaybackStep::StopTracked { child } => {
                    handed_to_stop.push(child);
                    PlaybackStep::Finished(svc.tracked_stopped(np, Ok(())))
                }
                PlaybackStep::Finished(_) => break,
            };
        }
        assert_eq!(np.child.is_some(), np.station.is_some());
    }
    (started, handed_to_stop)
}

#[test]
fn every_player_but_the_tracked_one_was_handed_to_stop() {
    let svc = RadioService::new(None);
    let mut np: NowPlaying<u32> = NowPlaying::default();
    let deeds = vec![
        (jazz(), Ok(1)),
        (jazz(), Ok(2)),
        (args(&[("url", "ftp://x")]), Ok(3)),
        (jazz(), Err("no mpv".to_string())),
        (jazz(), Ok(4)),
        (Json::Null, Ok(0)),
        (Json::Null, Ok(0)),
        (jazz(), Ok(5)),
        (args(&[("url", "http://other.example/")]), Ok(6)),
    ];
    let (started, handed_to_stop) = follow(&svc, &mut np, deeds);
    assert_eq!(started, vec![1, 2, 4, 5, 6]);
    assert_eq!(handed_to_stop, vec![1, 2, 4, 5]);
    assert_eq!(np.child, Some(6));
    assert_eq!(np.station.as_ref().unwrap().url_resolved, "http://other.example/");
}

#[test]
fn player_faults_are_counted() {
    let svc = RadioService::new(None);
    let mut np: NowPlaying<u32> = NowPlaying::default();
    let target = || StreamTarget {
        url: "http://other.example/".to_string(),
        name: "Other".to_string(),
        uuid: String::new(),
    };
    let failed = svc.player_spawned(&mut np, target(), Err("no mpv".to_string()));
    assert_eq!(
        labels(&failed.counted.unwrap()),
        vec![("tool", "radio_play"), ("reason", "player")]
    );
    let started = svc.player_spawned(&mut np, target(), Ok(1));
    assert!(started.counted.is_none());
    assert_eq!(np.child, Some(1));
}

#[test]
fn failed_stop_keeps_the_station() {
    let svc = RadioService::new(None);
    let mut np: NowPlaying<u32> = NowPlaying::default();
    run(&svc, &mut np, "radio_play", &jazz(), Ok(7)).unwrap();
    assert!(matches!(
        svc.begin_playback(&mut np, Playback::Stop).step,
        PlaybackStep::StopTracked { child: 7 }
    ));
    let reply = svc.tracked_stopped(
        &mut np,
        Err(InternetRadioMcpError::Radio(RadioError::PlayerError("SIGTERM failed: x".into()))),
    );
    assert!(matches!(
        reply,
        Err(CallError::Tool(msg)) if msg == "Radio error: Player error: SIGTERM failed: x"
    ));
    assert!(np.child.is_none());
    assert!(np.station.is_some());
}

#[test]
fn report_does_not_tell_the_process() {
    let svc = RadioService::new(None);
    let mut one: NowPlaying<u32> = NowPlaying::default();
    let mut other: NowPlaying<u32> = NowPlaying::default();
    run(&svc, &mut one, "radio_play", &jazz(), Ok(7)).unwrap();
    run(&svc, &mut other, "radio_play", &jazz(), Ok(4711)).unwrap();
    assert_eq!(
        text_of(&svc.exec_radio_now_playing(&one)),
        text_of(&svc.exec_radio_now_playing(&other))
    );
}

#[test]
fn listed_tools_are_the_ones_called() {
    let svc = RadioService::new(None);
    let names: Vec<String> = svc.tools().into_iter().map(|t| t.name).collect();
    for (i, name) in names.iter().enumerate() {
        assert!(!names[..i].contains(name));
        if let Step::Finished(Err(CallError::Tool(msg))) = svc.call_tool(name, &Json::Null) {
            panic!("listed tool was not called: {msg}");
        }
    }
    for name in ["", "radio", "Radio_play", "radio_play "] {
        assert!(matches!(
            finished(svc.call_tool(name, &Json::Null)),
            Err(CallError::Tool(msg)) if msg == format!("unknown tool: {name}")
        ));
    }
}

#[test]
fn counts_do_not_tell_contents() {
    let failed = |message: &str| -> Result<(), InternetRadioMcpError> {
        Err(InternetRadioMcpError::Radio(RadioError::PlayerError(message.to_string())))
    };
    let one = record_upstream_failure("radio_play", &failed("secret one")).unwrap();
    let other = record_upstream_failure("radio_play", &failed("secret two")).unwrap();
    assert_eq!(one.counter, other.counter);
    assert_eq!(labels(&one), labels(&other));
    assert_eq!(labels(&one), vec![("tool", "radio_play"), ("reason", "player")]);
}

#[test]
fn search_result_can_be_played() {
    let svc = RadioService::new(None);
    let progress = svc.directory_body_read(
        search_for(10),
        Ok(vec![station("A", "https://a.example/")]),
    );
    let reply = finished(progress.step).unwrap();
    let item = match &reply.content[0] {
        Content::Json(Json::Array(items)) => &items[0],
        other => panic!("expected an array, got {other:?}"),
    };
    let url = member(item, "url").as_str().unwrap();
    let name = member(item, "name").as_str().unwrap();
    let mut np: NowPlaying<u32> = NowPlaying::default();
    let reply =
        run(&svc, &mut np, "radio_play", &args(&[("url", url), ("name", name)]), Ok(1)).unwrap();
    assert_eq!(text_of(&reply), "▶ Now playing: A (https://a.example/)");
}

#[test]
fn station_found_by_uuid_is_played() {
    let svc = RadioService::new(None);
    let mut np: NowPlaying<u32> = NowPlaying::default();
    let pending = match svc.call_tool("radio_play", &args(&[("uuid", UUID)])) {
        Step::Fetch { pending, .. } => pending,
        other => panic!("expected a request, got {other:?}"),
    };
    let pending = match svc.directory_responded(pending, Ok(200)).step {
        Step::ReadBody { pending } => pending,
        other => panic!("expected the body to be read, got {other:?}"),
    };
    let body = Ok(vec![station("A", "https://a.example/")]);
    let playback = match svc.directory_body_read(pending, body).step {
        Step::Playback(playback) => playback,
        other => panic!("expected to play, got {other:?}"),
    };
    run_playback(&svc, &mut np, playback, Ok(3)).unwrap();
    assert_eq!(np.child, Some(3));
    assert_eq!(np.station.as_ref().unwrap().uuid, UUID);
    assert_eq!(
        text_of(&svc.exec_radio_now_playing(&np)),
        "▶ Now playing: A — https://a.example/"
    );
}
