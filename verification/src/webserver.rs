use crate::text::join3;
use crate::parse::{parse_bool, parse_i64, parse_u32, spec_parse_bool, spec_parse_i64, spec_parse_u32};
use vstd::prelude::*;

verus! {

/// The paths that the web server answers.
#[derive(Copy, Clone, Debug, PartialEq, Eq, Structural)]
pub enum Route {
    Stats,
    MarkStart,
    MarkEnd,
    IncrementCounter,
    EnumerateReplays,
    SetPlaybackSpeed,
    LoadReplay,
    SetPaused,
    GoToFrame,
    ClientScript,
    Unknown,
}

/// The route of a request URL.
pub open spec fn spec_route_of(url: Seq<char>) -> Route {
    if url == "/stats"@ {
        Route::Stats
    } else if url == "/mark-start"@ {
        Route::MarkStart
    } else if url == "/mark-end"@ {
        Route::MarkEnd
    } else if url == "/increment-counter"@ {
        Route::IncrementCounter
    } else if url == "/enumerate-replays"@ {
        Route::EnumerateReplays
    } else if url == "/set-playback-speed"@ {
        Route::SetPlaybackSpeed
    } else if url == "/load-replay"@ {
        Route::LoadReplay
    } else if url == "/set-paused"@ {
        Route::SetPaused
    } else if url == "/go-to-frame"@ {
        Route::GoToFrame
    } else if url == "/client.js"@ {
        Route::ClientScript
    } else {
        Route::Unknown
    }
}

fn same_text(a: &str, b: &str) -> (r: bool)
    ensures
        r == (a@ == b@),
{
    let a = String::from_str(a);
    let b = String::from_str(b);
    a == b
}

/// Find the route of a request URL.
pub fn route_of(url: &str) -> (r: Route)
    ensures
        r == spec_route_of(url@),
{
    if same_text(url, "/stats") {
        Route::Stats
    } else if same_text(url, "/mark-start") {
        Route::MarkStart
    } else if same_text(url, "/mark-end") {
        Route::MarkEnd
    } else if same_text(url, "/increment-counter") {
        Route::IncrementCounter
    } else if same_text(url, "/enumerate-replays") {
        Route::EnumerateReplays
    } else if same_text(url, "/set-playback-speed") {
        Route::SetPlaybackSpeed
    } else if same_text(url, "/load-replay") {
        Route::LoadReplay
    } else if same_text(url, "/set-paused") {
        Route::SetPaused
    } else if same_text(url, "/go-to-frame") {
        Route::GoToFrame
    } else if same_text(url, "/client.js") {
        Route::ClientScript
    } else {
        Route::Unknown
    }
}

/// Each documented path leads to the route of its name, and every other
/// route than `Unknown` has exactly one documented path: `/mark-end` marks
/// the end, `/mark-start` the start, and so on; the empty path and the root
/// lead nowhere.
pub proof fn law_documented_paths_route_to_their_commands()
    ensures
        spec_route_of("/stats"@) == Route::Stats,
        spec_route_of("/mark-start"@) == Route::MarkStart,
        spec_route_of("/mark-end"@) == Route::MarkEnd,
        spec_route_of("/increment-counter"@) == Route::IncrementCounter,
        spec_route_of("/enumerate-replays"@) == Route::EnumerateReplays,
        spec_route_of("/set-playback-speed"@) == Route::SetPlaybackSpeed,
        spec_route_of("/load-replay"@) == Route::LoadReplay,
        spec_route_of("/set-paused"@) == Route::SetPaused,
        spec_route_of("/go-to-frame"@) == Route::GoToFrame,
        spec_route_of("/client.js"@) == Route::ClientScript,
        spec_route_of(""@) == Route::Unknown,
        spec_route_of("/"@) == Route::Unknown,
        forall|url: Seq<char>| spec_route_of(url) == Route::MarkEnd ==> url == "/mark-end"@,
        forall|url: Seq<char>| spec_route_of(url) == Route::MarkStart ==> url == "/mark-start"@,
        forall|url: Seq<char>| spec_route_of(url) == Route::Stats ==> url == "/stats"@,
        forall|url: Seq<char>| spec_route_of(url) == Route::IncrementCounter ==> url == "/increment-counter"@,
        forall|url: Seq<char>| spec_route_of(url) == Route::EnumerateReplays ==> url == "/enumerate-replays"@,
        forall|url: Seq<char>| spec_route_of(url) == Route::SetPlaybackSpeed ==> url == "/set-playback-speed"@,
        forall|url: Seq<char>| spec_route_of(url) == Route::LoadReplay ==> url == "/load-replay"@,
        forall|url: Seq<char>| spec_route_of(url) == Route::SetPaused ==> url == "/set-paused"@,
        forall|url: Seq<char>| spec_route_of(url) == Route::GoToFrame ==> url == "/go-to-frame"@,
        forall|url: Seq<char>| spec_route_of(url) == Route::ClientScript ==> url == "/client.js"@,
{
    reveal_strlit("/stats");
    reveal_strlit("/mark-start");
    reveal_strlit("/mark-end");
    reveal_strlit("/increment-counter");
    reveal_strlit("/enumerate-replays");
    reveal_strlit("/set-playback-speed");
    reveal_strlit("/load-replay");
    reveal_strlit("/set-paused");
    reveal_strlit("/go-to-frame");
    reveal_strlit("/client.js");
    reveal_strlit("");
    reveal_strlit("/");
    assert("/mark-start"@ != "/stats"@) by { assert("/mark-start"@[1] != "/stats"@[1]); }
    assert("/mark-end"@ != "/stats"@) by { assert("/mark-end"@[1] != "/stats"@[1]); }
    assert("/mark-end"@ != "/mark-start"@) by { assert("/mark-end"@.len() != "/mark-start"@.len()); }
    assert("/increment-counter"@ != "/stats"@) by { assert("/increment-counter"@.len() != "/stats"@.len()); }
    assert("/increment-counter"@ != "/mark-start"@) by { assert("/increment-counter"@.len() != "/mark-start"@.len()); }
    assert("/increment-counter"@ != "/mark-end"@) by { assert("/increment-counter"@.len() != "/mark-end"@.len()); }
    assert("/enumerate-replays"@ != "/stats"@) by { assert("/enumerate-replays"@.len() != "/stats"@.len()); }
    assert("/enumerate-replays"@ != "/mark-start"@) by { assert("/enumerate-replays"@.len() != "/mark-start"@.len()); }
    assert("/enumerate-replays"@ != "/mark-end"@) by { assert("/enumerate-replays"@.len() != "/mark-end"@.len()); }
    assert("/enumerate-replays"@ != "/increment-counter"@) by { assert("/enumerate-replays"@[1] != "/increment-counter"@[1]); }
    assert("/set-playback-speed"@ != "/stats"@) by { assert("/set-playback-speed"@.len() != "/stats"@.len()); }
    assert("/set-playback-speed"@ != "/mark-start"@) by { assert("/set-playback-speed"@.len() != "/mark-start"@.len()); }
    assert("/set-playback-speed"@ != "/mark-end"@) by { assert("/set-playback-speed"@.len() != "/mark-end"@.len()); }
    assert("/set-playback-speed"@ != "/increment-counter"@) by { assert("/set-playback-speed"@[1] != "/increment-counter"@[1]); }
    assert("/set-playback-speed"@ != "/enumerate-replays"@) by { assert("/set-playback-speed"@[1] != "/enumerate-replays"@[1]); }
    assert("/load-replay"@ != "/stats"@) by { assert("/load-replay"@.len() != "/stats"@.len()); }
    assert("/load-replay"@ != "/mark-start"@) by { assert("/load-replay"@.len() != "/mark-start"@.len()); }
    assert("/load-replay"@ != "/mark-end"@) by { assert("/load-replay"@.len() != "/mark-end"@.len()); }
    assert("/load-replay"@ != "/increment-counter"@) by { assert("/load-replay"@.len() != "/increment-counter"@.len()); }
    assert("/load-replay"@ != "/enumerate-replays"@) by { assert("/load-replay"@.len() != "/enumerate-replays"@.len()); }
    assert("/load-replay"@ != "/set-playback-speed"@) by { assert("/load-replay"@.len() != "/set-playback-speed"@.len()); }
    assert("/set-paused"@ != "/stats"@) by { assert("/set-paused"@.len() != "/stats"@.len()); }
    assert("/set-paused"@ != "/mark-start"@) by { assert("/set-paused"@[1] != "/mark-start"@[1]); }
    assert("/set-paused"@ != "/mark-end"@) by { assert("/set-paused"@.len() != "/mark-end"@.len()); }
    assert("/set-paused"@ != "/increment-counter"@) by { assert("/set-paused"@.len() != "/increment-counter"@.len()); }
    assert("/set-paused"@ != "/enumerate-replays"@) by { assert("/set-paused"@.len() != "/enumerate-replays"@.len()); }
    assert("/set-paused"@ != "/set-playback-speed"@) by { assert("/set-paused"@.len() != "/set-playback-speed"@.len()); }
    assert("/set-paused"@ != "/load-replay"@) by { assert("/set-paused"@.len() != "/load-replay"@.len()); }
    assert("/go-to-frame"@ != "/stats"@) by { assert("/go-to-frame"@.len() != "/stats"@.len()); }
    assert("/go-to-frame"@ != "/mark-start"@) by { assert("/go-to-frame"@[1] != "/mark-start"@[1]); }
    assert("/go-to-frame"@ != "/mark-end"@) by { assert("/go-to-frame"@.len() != "/mark-end"@.len()); }
    assert("/go-to-frame"@ != "/increment-counter"@) by { assert("/go-to-frame"@.len() != "/increment-counter"@.len()); }
    assert("/go-to-frame"@ != "/enumerate-replays"@) by { assert("/go-to-frame"@.len() != "/enumerate-replays"@.len()); }
    assert("/go-to-frame"@ != "/set-playback-speed"@) by { assert("/go-to-frame"@.len() != "/set-playback-speed"@.len()); }
    assert("/go-to-frame"@ != "/load-replay"@) by { assert("/go-to-frame"@[1] != "/load-replay"@[1]); }
    assert("/go-to-frame"@ != "/set-paused"@) by { assert("/go-to-frame"@[1] != "/set-paused"@[1]); }
    assert("/client.js"@ != "/stats"@) by { assert("/client.js"@.len() != "/stats"@.len()); }
    assert("/client.js"@ != "/mark-start"@) by { assert("/client.js"@.len() != "/mark-start"@.len()); }
    assert("/client.js"@ != "/mark-end"@) by { assert("/client.js"@[1] != "/mark-end"@[1]); }
    assert("/client.js"@ != "/increment-counter"@) by { assert("/client.js"@.len() != "/increment-counter"@.len()); }
    assert("/client.js"@ != "/enumerate-replays"@) by { assert("/client.js"@.len() != "/enumerate-replays"@.len()); }
    assert("/client.js"@ != "/set-playback-speed"@) by { assert("/client.js"@.len() != "/set-playback-speed"@.len()); }
    assert("/client.js"@ != "/load-replay"@) by { assert("/client.js"@.len() != "/load-replay"@.len()); }
    assert("/client.js"@ != "/set-paused"@) by { assert("/client.js"@[1] != "/set-paused"@[1]); }
    assert("/client.js"@ != "/go-to-frame"@) by { assert("/client.js"@.len() != "/go-to-frame"@.len()); }
    assert(""@ != "/stats"@) by { assert(""@.len() != "/stats"@.len()); }
    assert(""@ != "/mark-start"@) by { assert(""@.len() != "/mark-start"@.len()); }
    assert(""@ != "/mark-end"@) by { assert(""@.len() != "/mark-end"@.len()); }
    assert(""@ != "/increment-counter"@) by { assert(""@.len() != "/increment-counter"@.len()); }
    assert(""@ != "/enumerate-replays"@) by { assert(""@.len() != "/enumerate-replays"@.len()); }
    assert(""@ != "/set-playback-speed"@) by { assert(""@.len() != "/set-playback-speed"@.len()); }
    assert(""@ != "/load-replay"@) by { assert(""@.len() != "/load-replay"@.len()); }
    assert(""@ != "/set-paused"@) by { assert(""@.len() != "/set-paused"@.len()); }
    assert(""@ != "/go-to-frame"@) by { assert(""@.len() != "/go-to-frame"@.len()); }
    assert(""@ != "/client.js"@) by { assert(""@.len() != "/client.js"@.len()); }
    assert("/"@ != "/stats"@) by { assert("/"@.len() != "/stats"@.len()); }
    assert("/"@ != "/mark-start"@) by { assert("/"@.len() != "/mark-start"@.len()); }
    assert("/"@ != "/mark-end"@) by { assert("/"@.len() != "/mark-end"@.len()); }
    assert("/"@ != "/increment-counter"@) by { assert("/"@.len() != "/increment-counter"@.len()); }
    assert("/"@ != "/enumerate-replays"@) by { assert("/"@.len() != "/enumerate-replays"@.len()); }
    assert("/"@ != "/set-playback-speed"@) by { assert("/"@.len() != "/set-playback-speed"@.len()); }
    assert("/"@ != "/load-replay"@) by { assert("/"@.len() != "/load-replay"@.len()); }
    assert("/"@ != "/set-paused"@) by { assert("/"@.len() != "/set-paused"@.len()); }
    assert("/"@ != "/go-to-frame"@) by { assert("/"@.len() != "/go-to-frame"@.len()); }
    assert("/"@ != "/client.js"@) by { assert("/"@.len() != "/client.js"@.len()); }
}

/// The query parameters that a route reads, in the order that
/// `decide_request` takes their values.
pub open spec fn spec_route_params(route: Route) -> Seq<Seq<char>> {
    match route {
        Route::MarkStart => seq!["offset"@],
        Route::IncrementCounter => seq!["name"@, "by"@],
        Route::SetPlaybackSpeed => seq!["speed"@],
        Route::LoadReplay => seq!["name"@],
        Route::SetPaused => seq!["paused"@],
        Route::GoToFrame => seq!["frame"@],
        _ => seq![],
    }
}

impl Route {
    /// The query parameters that this route reads, in the order that
    /// `decide_request` takes their values.
    pub fn params(&self) -> (r: Vec<&'static str>)
        ensures
            r@.map_values(|p: &str| p@) == spec_route_params(*self),
    {
        let r: Vec<&'static str> = match self {
            Route::MarkStart => vec!["offset"],
            Route::IncrementCounter => vec!["name", "by"],
            Route::SetPlaybackSpeed => vec!["speed"],
            Route::LoadReplay => vec!["name"],
            Route::SetPaused => vec!["paused"],
            Route::GoToFrame => vec!["frame"],
            _ => vec![],
        };
        assert(r@.map_values(|p: &str| p@) =~= spec_route_params(*self));
        r
    }
}

/// A command for the emulator, as the web server hands it on. The playback
/// speed travels as the text of the request; the emulator reads it.
#[derive(Clone, Debug, PartialEq, Eq)]
pub enum ServerCommand {
    Stats,
    MarkStart(u32),
    MarkEnd,
    IncrementCounter(String, i64),
    GoToFrame(u32),
    SetPaused(bool),
    LoadReplay(String),
    EnumerateReplays,
    SetPlaybackSpeed(String),
}

/// The body of a response.
#[derive(Clone, Debug, PartialEq, Eq)]
pub enum ResponseBody {
    /// No body.
    Empty,
    /// A JSON object with the field `error`.
    Error(String),
    /// The emulator's answer, as JSON.
    Answer,
    /// The client script.
    ClientScript,
}

/// A response: its HTTP status and body.
#[derive(Clone, Debug, PartialEq, Eq)]
pub struct WebResponse {
    pub status: u16,
    pub body: ResponseBody,
}

/// What to do with a request: answer at once, or hand a command to the
/// emulator and answer from its reply.
#[derive(Clone, Debug, PartialEq, Eq)]
pub enum RequestDecision {
    Respond(WebResponse),
    Send(ServerCommand),
}

/// A command as a value.
pub enum CommandView {
    Stats,
    MarkStart(u32),
    MarkEnd,
    IncrementCounter(Seq<char>, i64),
    GoToFrame(u32),
    SetPaused(bool),
    LoadReplay(Seq<char>),
    EnumerateReplays,
    SetPlaybackSpeed(Seq<char>),
}

/// A response as a value.
pub enum ResponseView {
    Empty(u16),
    Error(u16, Seq<char>),
    Answer(u16),
    ClientScript(u16),
}

/// A decision as a value.
pub enum DecisionView {
    Respond(ResponseView),
    Send(CommandView),
}

impl View for WebResponse {
    type V = ResponseView;

    open spec fn view(&self) -> ResponseView {
        match self.body {
            ResponseBody::Empty => ResponseView::Empty(self.status),
            ResponseBody::Error(e) => ResponseView::Error(self.status, e@),
            ResponseBody::Answer => ResponseView::Answer(self.status),
            ResponseBody::ClientScript => ResponseView::ClientScript(self.status),
        }
    }
}

impl View for ServerCommand {
    type V = CommandView;

    open spec fn view(&self) -> CommandView {
        match self {
            ServerCommand::Stats => CommandView::Stats,
            ServerCommand::MarkStart(o) => CommandView::MarkStart(*o),
            ServerCommand::MarkEnd => CommandView::MarkEnd,
            ServerCommand::IncrementCounter(n, by) => CommandView::IncrementCounter(n@, *by),
            ServerCommand::GoToFrame(f) => CommandView::GoToFrame(*f),
            ServerCommand::SetPaused(p) => CommandView::SetPaused(*p),
            ServerCommand::LoadReplay(n) => CommandView::LoadReplay(n@),
            ServerCommand::EnumerateReplays => CommandView::EnumerateReplays,
            ServerCommand::SetPlaybackSpeed(s) => CommandView::SetPlaybackSpeed(s@),
        }
    }
}

impl View for RequestDecision {
    type V = DecisionView;

    open spec fn view(&self) -> DecisionView {
        match self {
            RequestDecision::Respond(r) => DecisionView::Respond(r@),
            RequestDecision::Send(c) => DecisionView::Send(c@),
        }
    }
}

/// A 400 answer with an error.
pub open spec fn bad_request(message: Seq<char>) -> DecisionView {
    DecisionView::Respond(ResponseView::Error(400, message))
}

/// The error for a parameter that does not read as an unsigned integer.
pub open spec fn unsigned_error(n: Seq<char>) -> Seq<char> {
    "failed (can't parse "@ + n + " as an unsigned integer)"@
}

/// The error for a parameter that does not read as an integer.
pub open spec fn integer_error(n: Seq<char>) -> Seq<char> {
    "failed (can't parse "@ + n + " as an integer)"@
}

/// The error for a playback speed that does not read as a finite positive
/// float.
pub open spec fn float_error(n: Seq<char>) -> Seq<char> {
    "failed (can't parse "@ + n + " as an float)"@
}

/// What the server does with a request on `route` whose parameters (those of
/// `spec_route_params(route)`, in order) have the values `first` and
/// `second`.
pub open spec fn spec_decide_request(route: Route, first: Option<Seq<char>>, second: Option<Seq<char>>) -> DecisionView {
    match route {
        Route::Stats => DecisionView::Send(CommandView::Stats),
        Route::MarkStart => match first {
            None => DecisionView::Send(CommandView::MarkStart(0)),
            Some(n) => match spec_parse_u32(n) {
                Some(v) => DecisionView::Send(CommandView::MarkStart(v)),
                None => bad_request(unsigned_error(n)),
            },
        },
        Route::MarkEnd => DecisionView::Send(CommandView::MarkEnd),
        Route::IncrementCounter => match first {
            None => bad_request("failed (missing the name parameter)"@),
            Some(name) => match second {
                None => DecisionView::Send(CommandView::IncrementCounter(name, 1)),
                Some(n) => match spec_parse_i64(n) {
                    Some(by) => DecisionView::Send(CommandView::IncrementCounter(name, by)),
                    None => bad_request(integer_error(n)),
                },
            },
        },
        Route::EnumerateReplays => DecisionView::Send(CommandView::EnumerateReplays),
        Route::SetPlaybackSpeed => match first {
            None => bad_request("failed (missing the speed parameter)"@),
            Some(n) => DecisionView::Send(CommandView::SetPlaybackSpeed(n)),
        },
        Route::LoadReplay => match first {
            None => bad_request("failed (missing the name parameter)"@),
            Some(name) => DecisionView::Send(CommandView::LoadReplay(name)),
        },
        Route::SetPaused => match first {
            None => bad_request("failed (missing the frame parameter)"@),
            Some(n) => match spec_parse_bool(n) {
                Some(p) => DecisionView::Send(CommandView::SetPaused(p)),
                None => bad_request(integer_error(n)),
            },
        },
        Route::GoToFrame => match first {
            None => bad_request("failed (missing the frame parameter)"@),
            Some(n) => match spec_parse_u32(n) {
                Some(f) => DecisionView::Send(CommandView::GoToFrame(f)),
                None => bad_request(integer_error(n)),
            },
        },
        Route::ClientScript => DecisionView::Respond(ResponseView::ClientScript(200)),
        Route::Unknown => DecisionView::Respond(ResponseView::Empty(400)),
    }
}

fn bad_request_with(message: String) -> (r: RequestDecision)
    ensures
        r@ == bad_request(message@),
{
    RequestDecision::Respond(WebResponse { status: 400, body: ResponseBody::Error(message) })
}

/// The error for a playback speed that does not read as a finite positive
/// float.
pub fn float_error_message(n: &str) -> (r: String)
    ensures
        r@ == float_error(n@),
{
    join3("failed (can't parse ", n, " as an float)")
}

/// Decide what to do with a request on `route`, given the values of its
/// parameters (those of `route.params()`, in order; `None` where absent).
pub fn decide_request(route: Route, first: Option<String>, second: Option<String>) -> (r: RequestDecision)
    ensures
        r@ == spec_decide_request(
            route,
            match first { Some(s) => Some(s@), None => None },
            match second { Some(s) => Some(s@), None => None },
        ),
{
    match route {
        Route::Stats => RequestDecision::Send(ServerCommand::Stats),
        Route::MarkStart => match first {
            None => RequestDecision::Send(ServerCommand::MarkStart(0)),
            Some(n) => match parse_u32(n.as_str()) {
                Some(v) => RequestDecision::Send(ServerCommand::MarkStart(v)),
                None => bad_request_with(join3("failed (can't parse ", n.as_str(), " as an unsigned integer)")),
            },
        },
        Route::MarkEnd => RequestDecision::Send(ServerCommand::MarkEnd),
        Route::IncrementCounter => match first {
            None => bad_request_with(String::from_str("failed (missing the name parameter)")),
            Some(name) => match second {
                None => RequestDecision::Send(ServerCommand::IncrementCounter(name, 1)),
                Some(n) => match parse_i64(n.as_str()) {
                    Some(by) => RequestDecision::Send(ServerCommand::IncrementCounter(name, by)),
                    None => bad_request_with(join3("failed (can't parse ", n.as_str(), " as an integer)")),
                },
            },
        },
        Route::EnumerateReplays => RequestDecision::Send(ServerCommand::EnumerateReplays),
        Route::SetPlaybackSpeed => match first {
            None => bad_request_with(String::from_str("failed (missing the speed parameter)")),
            Some(n) => RequestDecision::Send(ServerCommand::SetPlaybackSpeed(n)),
        },
        Route::LoadReplay => match first {
            None => bad_request_with(String::from_str("failed (missing the name parameter)")),
            Some(name) => RequestDecision::Send(ServerCommand::LoadReplay(name)),
        },
        Route::SetPaused => match first {
            None => bad_request_with(String::from_str("failed (missing the frame parameter)")),
            Some(n) => match parse_bool(n.as_str()) {
                Some(p) => RequestDecision::Send(ServerCommand::SetPaused(p)),
                None => bad_request_with(join3("failed (can't parse ", n.as_str(), " as an integer)")),
            },
        },
        Route::GoToFrame => match first {
            None => bad_request_with(String::from_str("failed (missing the frame parameter)")),
            Some(n) => match parse_u32(n.as_str()) {
                Some(f) => RequestDecision::Send(ServerCommand::GoToFrame(f)),
                None => bad_request_with(join3("failed (can't parse ", n.as_str(), " as an integer)")),
            },
        },
        Route::ClientScript => RequestDecision::Respond(WebResponse { status: 200, body: ResponseBody::ClientScript }),
        Route::Unknown => RequestDecision::Respond(WebResponse { status: 400, body: ResponseBody::Empty }),
    }
}

/// The answer when the emulator cannot take the command or does not reply in time.
pub open spec fn unavailable() -> ResponseView {
    ResponseView::Error(503, "failed (emulator is not available)"@)
}

/// The error of a command that the emulator refused.
pub open spec fn refusal_text(command: CommandView) -> Seq<char> {
    match command {
        CommandView::SetPlaybackSpeed(_) => "error (probably not playing a game)"@,
        CommandView::LoadReplay(_) => "error (replay probably not found or is invalid)"@,
        CommandView::SetPaused(_) => "error (unknown reason)"@,
        CommandView::GoToFrame(_) => "error (probably not playing back a replay)"@,
        _ => "error (probably not recording a replay)"@,
    }
}

/// The answer to a command, from the emulator's reply: `None` where the
/// command could not be handed on or no reply came in time; for commands
/// that reply with data, `Some(true)` stands for that data.
pub open spec fn spec_reply_response(command: CommandView, reply: Option<bool>) -> ResponseView {
    match reply {
        None => unavailable(),
        Some(ok) => match command {
            CommandView::Stats | CommandView::EnumerateReplays => ResponseView::Answer(200),
            _ => if ok {
                ResponseView::Empty(204)
            } else {
                ResponseView::Error(404, refusal_text(command))
            },
        },
    }
}

/// Answer a command from the emulator's reply.
pub fn reply_response(command: &ServerCommand, reply: Option<bool>) -> (r: WebResponse)
    ensures
        r@ == spec_reply_response(command@, reply),
{
    match reply {
        None => WebResponse {
            status: 503,
            body: ResponseBody::Error(String::from_str("failed (emulator is not available)")),
        },
        Some(ok) => match command {
            ServerCommand::Stats | ServerCommand::EnumerateReplays => WebResponse { status: 200, body: ResponseBody::Answer },
            _ => if ok {
                WebResponse { status: 204, body: ResponseBody::Empty }
            } else {
                let text = match command {
                    ServerCommand::SetPlaybackSpeed(_) => "error (probably not playing a game)",
                    ServerCommand::LoadReplay(_) => "error (replay probably not found or is invalid)",
                    ServerCommand::SetPaused(_) => "error (unknown reason)",
                    ServerCommand::GoToFrame(_) => "error (probably not playing back a replay)",
                    _ => "error (probably not recording a replay)",
                };
                WebResponse { status: 404, body: ResponseBody::Error(String::from_str(text)) }
            },
        },
    }
}

/// Every command that the emulator accepts is answered with 204 (or, for the
/// commands that reply with data, 200), every refusal with 404, and a missing
/// reply with 503: no reply is answered as a success.
pub proof fn law_reply_status(command: CommandView, reply: Option<bool>)
    ensures
        reply is None ==> spec_reply_response(command, reply) == unavailable(),
        reply == Some(false) && !(command is Stats || command is EnumerateReplays)
            ==> spec_reply_response(command, reply) matches ResponseView::Error(404, _),
        reply == Some(true) && !(command is Stats || command is EnumerateReplays)
            ==> spec_reply_response(command, reply) == ResponseView::Empty(204),
{
}

} // verus!
