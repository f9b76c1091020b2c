use supershuckie::webserver::{
    decide_request, float_error_message, reply_response, route_of, RequestDecision, ResponseBody, Route, ServerCommand,
    WebResponse,
};

fn s(x: &str) -> Option<String> {
    Some(String::from(x))
}

fn error(status: u16, message: &str) -> RequestDecision {
    RequestDecision::Respond(WebResponse { status, body: ResponseBody::Error(String::from(message)) })
}

#[test]
fn routes() {
    assert_eq!(route_of("/stats"), Route::Stats);
    assert_eq!(route_of("/mark-start"), Route::MarkStart);
    assert_eq!(route_of("/go-to-frame"), Route::GoToFrame);
    assert_eq!(route_of("/client.js"), Route::ClientScript);
    assert_eq!(route_of("/stats/"), Route::Unknown);
    assert_eq!(route_of(""), Route::Unknown);
    assert_eq!(Route::IncrementCounter.params(), vec!["name", "by"]);
    assert!(Route::Stats.params().is_empty());
}

#[test]
fn mark_start_offsets() {
    assert_eq!(decide_request(Route::MarkStart, None, None), RequestDecision::Send(ServerCommand::MarkStart(0)));
    assert_eq!(decide_request(Route::MarkStart, s("+42"), None), RequestDecision::Send(ServerCommand::MarkStart(42)));
    assert_eq!(decide_request(Route::MarkStart, s("-1"), None), error(400, "failed (can't parse -1 as an unsigned integer)"));
    assert_eq!(
        decide_request(Route::MarkStart, s("4294967296"), None),
        error(400, "failed (can't parse 4294967296 as an unsigned integer)")
    );
}

#[test]
fn increment_counter_parameters() {
    assert_eq!(decide_request(Route::IncrementCounter, None, s("2")), error(400, "failed (missing the name parameter)"));
    assert_eq!(
        decide_request(Route::IncrementCounter, s("deaths"), None),
        RequestDecision::Send(ServerCommand::IncrementCounter(String::from("deaths"), 1))
    );
    assert_eq!(
        decide_request(Route::IncrementCounter, s("deaths"), s("-9223372036854775808")),
        RequestDecision::Send(ServerCommand::IncrementCounter(String::from("deaths"), i64::MIN))
    );
    assert_eq!(decide_request(Route::IncrementCounter, s("d"), s("1.5")), error(400, "failed (can't parse 1.5 as an integer)"));
}

#[test]
fn other_parameters() {
    assert_eq!(decide_request(Route::SetPaused, s("true"), None), RequestDecision::Send(ServerCommand::SetPaused(true)));
    assert_eq!(decide_request(Route::SetPaused, s("1"), None), error(400, "failed (can't parse 1 as an integer)"));
    assert_eq!(decide_request(Route::SetPaused, None, None), error(400, "failed (missing the frame parameter)"));
    assert_eq!(decide_request(Route::GoToFrame, s("300"), None), RequestDecision::Send(ServerCommand::GoToFrame(300)));
    assert_eq!(decide_request(Route::GoToFrame, s(""), None), error(400, "failed (can't parse  as an integer)"));
    assert_eq!(decide_request(Route::GoToFrame, None, None), error(400, "failed (missing the frame parameter)"));
    assert_eq!(decide_request(Route::LoadReplay, None, None), error(400, "failed (missing the name parameter)"));
    assert_eq!(
        decide_request(Route::LoadReplay, s("run"), None),
        RequestDecision::Send(ServerCommand::LoadReplay(String::from("run")))
    );
    assert_eq!(decide_request(Route::SetPlaybackSpeed, None, None), error(400, "failed (missing the speed parameter)"));
    assert_eq!(
        decide_request(Route::SetPlaybackSpeed, s("1.5"), None),
        RequestDecision::Send(ServerCommand::SetPlaybackSpeed(String::from("1.5")))
    );
    assert_eq!(float_error_message("x"), "failed (can't parse x as an float)");
}

#[test]
fn fixed_answers() {
    assert_eq!(
        decide_request(Route::Unknown, None, None),
        RequestDecision::Respond(WebResponse { status: 400, body: ResponseBody::Empty })
    );
    assert_eq!(
        decide_request(Route::ClientScript, None, None),
        RequestDecision::Respond(WebResponse { status: 200, body: ResponseBody::ClientScript })
    );
    assert_eq!(decide_request(Route::Stats, None, None), RequestDecision::Send(ServerCommand::Stats));
}

#[test]
fn replies() {
    let unavailable = WebResponse { status: 503, body: ResponseBody::Error(String::from("failed (emulator is not available)")) };
    assert_eq!(reply_response(&ServerCommand::MarkEnd, None), unavailable);
    assert_eq!(reply_response(&ServerCommand::MarkEnd, Some(true)), WebResponse { status: 204, body: ResponseBody::Empty });
    assert_eq!(
        reply_response(&ServerCommand::MarkEnd, Some(false)),
        WebResponse { status: 404, body: ResponseBody::Error(String::from("error (probably not recording a replay)")) }
    );
    assert_eq!(
        reply_response(&ServerCommand::GoToFrame(3), Some(false)),
        WebResponse { status: 404, body: ResponseBody::Error(String::from("error (probably not playing back a replay)")) }
    );
    assert_eq!(
        reply_response(&ServerCommand::LoadReplay(String::new()), Some(false)),
        WebResponse { status: 404, body: ResponseBody::Error(String::from("error (replay probably not found or is invalid)")) }
    );
    assert_eq!(
        reply_response(&ServerCommand::SetPaused(true), Some(false)),
        WebResponse { status: 404, body: ResponseBody::Error(String::from("error (unknown reason)")) }
    );
    assert_eq!(
        reply_response(&ServerCommand::SetPlaybackSpeed(String::new()), Some(false)),
        WebResponse { status: 404, body: ResponseBody::Error(String::from("error (probably not playing a game)")) }
    );
    assert_eq!(reply_response(&ServerCommand::Stats, Some(true)), WebResponse { status: 200, body: ResponseBody::Answer });
    assert_eq!(reply_response(&ServerCommand::EnumerateReplays, None), unavailable);
}

#[test]
fn parameters_parse_as_std_parses_them() {
    let samples = [
        "", "+", "-", "0", "+0", "-0", "007", "42", "-42", "+42", "4294967295", "4294967296", "-4294967295",
        "9223372036854775807", "9223372036854775808", "-9223372036854775808", "-9223372036854775809",
        "99999999999999999999999", " 1", "1 ", "1a", "١٢", "true", "false", "True", "", "--1", "+-1",
    ];
    for n in samples {
        let frame = match n.parse::<u32>() {
            Ok(v) => RequestDecision::Send(ServerCommand::GoToFrame(v)),
            Err(_) => error(400, &format!("failed (can't parse {n} as an integer)")),
        };
        assert_eq!(decide_request(Route::GoToFrame, s(n), None), frame, "{n}");
        let by = match n.parse::<i64>() {
            Ok(v) => RequestDecision::Send(ServerCommand::IncrementCounter(String::from("c"), v)),
            Err(_) => error(400, &format!("failed (can't parse {n} as an integer)")),
        };
        assert_eq!(decide_request(Route::IncrementCounter, s("c"), s(n)), by, "{n}");
        let paused = match n.parse::<bool>() {
            Ok(v) => RequestDecision::Send(ServerCommand::SetPaused(v)),
            Err(_) => error(400, &format!("failed (can't parse {n} as an integer)")),
        };
        assert_eq!(decide_request(Route::SetPaused, s(n), None), paused, "{n}");
    }
}
