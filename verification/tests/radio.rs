use internet_radio_mcp::error::{InternetRadioMcpError, McpError, RadioError};
use internet_radio_mcp::models::Station;
use internet_radio_mcp::operations::radio::{
    accept_status, kill_child, parse_stations_response, play_station, player_spawned, request_sent,
    search_by_name, search_by_tag, station_by_uuid, station_found, status_error, stop_after_kill,
    stop_after_reap, stop_after_terminate, stop_after_try_wait, stop_child, validate_stream_url,
    validate_uuid, SignalOutcome, StdioMode, StopStep, RADIO_BROWSER_BASE, USER_AGENT,
};

const UUID: &str = "550e8400-e29b-41d4-a716-446655440000";

fn station(name: &str) -> Station {
    Station {
        uuid: UUID.to_string(),
        name: name.to_string(),
        url_resolved: format!("https://stream.example.com/{}", name),
        country: "Testland".to_string(),
        tags: "jazz,test".to_string(),
        bitrate: 128,
        codec: "MP3".to_string(),
        votes: 42,
    }
}

#[test]
fn test_validate_stream_url_accepts_http() {
    assert!(validate_stream_url("http://stream.example.com/radio.mp3").is_ok());
    assert!(validate_stream_url("https://stream.example.com/radio.mp3").is_ok());
}

#[test]
fn test_validate_stream_url_rejects_non_http() {
    assert!(validate_stream_url("file:///etc/passwd").is_err());
    assert!(validate_stream_url("ftp://example.com/radio.mp3").is_err());
    assert!(validate_stream_url("rtsp://example.com/stream").is_err());
}

#[test]
fn test_validate_uuid_accepts_valid() {
    assert!(validate_uuid("550e8400-e29b-41d4-a716-446655440000").is_ok());
    assert!(validate_uuid("00000000-0000-0000-0000-000000000000").is_ok());
}

#[test]
fn test_validate_uuid_rejects_short() {
    assert!(validate_uuid("550e8400-e29b-41d4").is_err());
}

#[test]
fn test_validate_uuid_rejects_invalid_chars() {
    assert!(validate_uuid("550e8400-e29b-41d4-a716-44665544000!").is_err());
    // Path traversal attempt
    assert!(validate_uuid("../../etc/passwd!!!!!!!!!!!!!!!!!!!").is_err());
}

#[test]
fn test_validate_uuid_rejects_injection() {
    // Query-string injection attempt (36 chars, but contains '?')
    assert!(validate_uuid("550e8400-e29b-41d4-a716-4466554?0000").is_err());
}

#[test]
fn uuid_errors_say_what_is_wrong() {
    assert_eq!(
        validate_uuid("550e8400-e29b-41d4").unwrap_err().to_string(),
        "MCP error: Invalid tool parameters: UUID must be 36 characters, got 18"
    );
    assert_eq!(
        validate_uuid("550e8400-e29b-41d4-a716-4466554?0000").unwrap_err().to_string(),
        "MCP error: Invalid tool parameters: UUID contains invalid characters \
         (expected [0-9a-fA-F-]): 550e8400-e29b-41d4-a716-4466554?0000"
    );
}

#[test]
fn uuid_length_is_that_of_the_encoding() {
    // 36 characters, 37 bytes.
    let wide = "550e8400-e29b-41d4-a716-44665544000é";
    assert_eq!(
        validate_uuid(wide).unwrap_err().to_string(),
        "MCP error: Invalid tool parameters: UUID must be 36 characters, got 37"
    );
    // 35 characters, 36 bytes.
    let narrow = "550e8400-e29b-41d4-a716-4466554400é";
    assert!(validate_uuid(narrow).unwrap_err().to_string().contains("invalid characters"));
    assert!(validate_uuid("").unwrap_err().to_string().ends_with("got 0"));
    assert!(validate_uuid("ABCDEFab-cdef-0123-4567-89ABCDEFabcd").is_ok());
}

#[test]
fn stream_url_scheme_is_case_insensitive() {
    assert!(validate_stream_url("HTTP://stream.example.com").is_ok());
    assert!(validate_stream_url("hTTpS://stream.example.com").is_ok());
    assert!(validate_stream_url("http:/stream.example.com").is_err());
    assert!(validate_stream_url(" http://stream.example.com").is_err());
    assert!(validate_stream_url("httpſ://stream.example.com").is_err());
    assert!(validate_stream_url("").is_err());
}

#[test]
fn stream_url_error_shows_the_scheme_only() {
    assert_eq!(
        validate_stream_url("file:///etc/passwd").unwrap_err().to_string(),
        "Radio error: Player error: only http:// and https:// stream URLs are allowed, got: file"
    );
    assert_eq!(
        validate_stream_url("no-scheme-here").unwrap_err().to_string(),
        "Radio error: Player error: only http:// and https:// stream URLs are allowed, \
         got: no-scheme-here"
    );
    assert_eq!(
        validate_stream_url("a://b://c").unwrap_err().to_string(),
        "Radio error: Player error: only http:// and https:// stream URLs are allowed, got: a"
    );
}

#[test]
fn search_requests_are_exact() {
    let by_name = search_by_name(RADIO_BROWSER_BASE, "Jazz & Blues", 5);
    assert_eq!(by_name.url, "https://de1.api.radio-browser.info/json/stations/search");
    assert_eq!(
        by_name.query,
        vec![
            ("name".to_string(), "Jazz & Blues".to_string()),
            ("limit".to_string(), "5".to_string()),
            ("hidebroken".to_string(), "true".to_string()),
            ("order".to_string(), "votes".to_string()),
        ]
    );
    assert_eq!(by_name.user_agent, USER_AGENT);

    let by_tag = search_by_tag("http://localhost/json", "jazz", 4_294_967_295);
    assert_eq!(by_tag.url, "http://localhost/json/stations/search");
    assert_eq!(by_tag.query[0], ("tag".to_string(), "jazz".to_string()));
    assert_eq!(by_tag.query[1], ("limit".to_string(), "4294967295".to_string()));
}

#[test]
fn lookup_request_ends_with_the_uuid() {
    let request = station_by_uuid("http://localhost/json", UUID).unwrap();
    assert_eq!(request.url, format!("http://localhost/json/stations/byuuid/{}", UUID));
    assert!(request.query.is_empty());
    assert_eq!(request.user_agent, "AdelieInternetRadioMcp/0.1 (contact: local)");
    assert!(matches!(
        station_by_uuid("http://localhost/json", "../../etc/passwd"),
        Err(InternetRadioMcpError::Mcp(McpError::InvalidToolParameters(_)))
    ));
}

#[test]
fn status_codes_of_success_are_accepted() {
    assert!(accept_status(200).is_ok());
    assert!(accept_status(299).is_ok());
    for code in [100u16, 199, 300, 404, 503, 999] {
        assert!(accept_status(code).is_err());
    }
}

#[test]
fn refused_answers_show_the_status_line() {
    assert_eq!(
        accept_status(503).unwrap_err().to_string(),
        "Radio error: Radio Browser API error: HTTP 503 Service Unavailable from Radio Browser"
    );
    assert_eq!(
        accept_status(799).unwrap_err().to_string(),
        "Radio error: Radio Browser API error: HTTP 799 <unknown status code> from Radio Browser"
    );
}

#[test]
fn status_lines_are_quoted() {
    assert_eq!(
        status_error("418 I'm a teapot").to_string(),
        "Radio error: Radio Browser API error: HTTP 418 I'm a teapot from Radio Browser"
    );
    assert!(matches!(
        status_error(""),
        InternetRadioMcpError::Radio(RadioError::ApiError(msg))
            if msg == "HTTP  from Radio Browser"
    ));
}

#[test]
fn unsent_request_is_an_api_error() {
    assert_eq!(request_sent(Ok(204)).unwrap(), 204);
    assert_eq!(
        request_sent(Err("connection refused".to_string())).unwrap_err().to_string(),
        "Radio error: Radio Browser API error: connection refused"
    );
}

#[test]
fn bodies_are_stations_or_errors() {
    let list = parse_stations_response(Ok(vec![station("a"), station("b")]), "q").unwrap();
    assert_eq!(list.len(), 2);
    assert_eq!(list[0].name, "a");
    assert_eq!(list[1].name, "b");

    let empty = parse_stations_response(Ok(vec![]), "polka").unwrap_err();
    assert!(matches!(
        &empty,
        InternetRadioMcpError::Radio(RadioError::NoStationsFound(q)) if q == "polka"
    ));
    assert_eq!(empty.to_string(), "Radio error: No stations found for query: polka");

    let broken = parse_stations_response(Err("expected value".to_string()), "q").unwrap_err();
    assert_eq!(broken.to_string(), "Radio error: Radio Browser API error: expected value");
}

#[test]
fn lookup_takes_the_first_station() {
    let found = station_found(Ok(vec![station("a"), station("b")])).unwrap().unwrap();
    assert_eq!(found.name, "a");
    assert!(station_found(Ok(vec![])).unwrap().is_none());
}

#[test]
fn lookup_takes_an_empty_result_for_absence() {
    let empty = parse_stations_response(Ok(vec![]), UUID);
    assert!(station_found(empty).unwrap().is_none());

    let fault = parse_stations_response(Err("expected value".to_string()), UUID);
    assert!(station_found(fault).is_err());

    // The kind of the error decides, not what it says.
    let quoted = parse_stations_response(Err("No stations found here".to_string()), UUID);
    assert!(matches!(
        station_found(quoted),
        Err(InternetRadioMcpError::Radio(RadioError::ApiError(msg)))
            if msg == "No stations found here"
    ));
    let named = InternetRadioMcpError::from(McpError::ToolNotFound("No stations found".into()));
    assert!(station_found(Err(named)).is_err());
}

#[test]
fn player_command_is_exact() {
    let command = play_station("https://stream.example.com/jazz128").unwrap();
    assert_eq!(command.program, "mpv");
    assert_eq!(
        command.args,
        vec!["--no-video", "--really-quiet", "https://stream.example.com/jazz128"]
    );
    assert_eq!(command.stdin, StdioMode::Null);
    assert_eq!(command.stdout, StdioMode::Null);
    assert_eq!(command.stderr, StdioMode::Null);
    assert!(play_station("file:///etc/passwd").is_err());
}

#[test]
fn failed_spawn_is_a_player_error() {
    assert_eq!(player_spawned::<u32>(Ok(7)).unwrap(), 7);
    assert_eq!(
        player_spawned::<u32>(Err("No such file or directory (os error 2)".to_string()))
            .unwrap_err()
            .to_string(),
        "Radio error: Player error: Failed to spawn mpv: No such file or directory (os error 2)"
    );
}

fn text_of(step: StopStep<u32>) -> String {
    match step {
        StopStep::Done(Err(e)) => e.to_string(),
        other => panic!("expected a failure, got {:?}", other),
    }
}

#[test]
fn running_process_is_terminated_and_reaped() {
    assert!(matches!(stop_child(7u32), StopStep::TryWait(7)));
    assert!(matches!(stop_after_try_wait(7u32, Ok(false)), StopStep::Terminate(7)));
    assert!(matches!(stop_after_terminate(7u32, SignalOutcome::Sent), StopStep::Reap(7)));
    assert!(matches!(stop_after_reap::<u32>(), StopStep::Done(Ok(()))));
}

#[test]
fn exited_process_is_left_alone() {
    assert!(matches!(stop_after_try_wait(7u32, Ok(true)), StopStep::Done(Ok(()))));
}

#[test]
fn process_that_exits_meanwhile_is_no_error() {
    assert!(matches!(stop_after_terminate(7u32, SignalOutcome::NoSuchProcess), StopStep::Reap(7)));
}

#[test]
fn stop_failures_say_what_failed() {
    assert_eq!(
        text_of(stop_after_try_wait(7u32, Err("oops".to_string()))),
        "Radio error: Player error: try_wait failed: oops"
    );
    assert_eq!(
        text_of(stop_after_terminate(
            7u32,
            SignalOutcome::Failed("EPERM: Operation not permitted".to_string())
        )),
        "Radio error: Player error: SIGTERM failed: EPERM: Operation not permitted"
    );
    assert_eq!(
        text_of(stop_after_kill(7u32, Err("denied".to_string()))),
        "Radio error: Player error: kill failed: denied"
    );
}

#[test]
fn process_without_signals_is_killed_and_reaped() {
    assert!(matches!(kill_child(7u32), StopStep::Kill(7)));
    assert!(matches!(stop_after_kill(7u32, Ok(())), StopStep::Reap(7)));
}

#[test]
fn outside_errors_show_through() {
    let io = InternetRadioMcpError::from(std::io::Error::new(
        std::io::ErrorKind::NotFound,
        "no such thing",
    ));
    assert_eq!(io.to_string(), "IO error: no such thing");

    let parsed: Result<bool, serde_json::Error> = serde_json::from_str("maybe");
    let inner = parsed.unwrap_err();
    let shown = format!("JSON error: {}", inner);
    let json = InternetRadioMcpError::from(inner);
    assert_eq!(json.to_string(), shown);

    let mcp = InternetRadioMcpError::from(McpError::ToolNotFound("x".to_string()));
    assert_eq!(mcp.to_string(), "MCP error: Tool not found: x");
}
