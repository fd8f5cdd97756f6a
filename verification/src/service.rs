//! The radio service: its configuration, its tools, and the course of a call of
//! each of them.
use vstd::prelude::*;

use crate::arguments;
use crate::arguments::{play_arguments, search_arguments, WantedStream, WantedStreamView};
use crate::call::{
    Pending, PendingView, Playback, PlaybackStep, PlaybackStepView, PlaybackView, Step, StepView,
};
use crate::error::{
    InternetRadioMcpError, InternetRadioMcpErrorView, McpError, RadioError, RadioErrorView,
};
use crate::json;
use crate::json::{array, entry, object, text, Json, JsonView};
use crate::models;
use crate::models::{Station, StationView};
use crate::operations::radio;
use crate::playback;
use crate::playback::{
    start_play, NowPlaying, NowPlayingView, PlayStep, PlayStepView, StreamTarget, StreamTargetView,
};
use crate::ranking;
use crate::ranking::best_voted;
use crate::schema;
use crate::text::{join, same_text};

verus! {

// ── server configuration ─────────────────────────────────────────────────────

/// Model-facing summary of this server.
///
/// The host uses it as the server's searchable description, so it says what the
/// server is for, when to reach for it, the tools by name, and that playback is a
/// local `mpv` process on the host's own speakers.
pub const SERVER_INSTRUCTIONS: &'static str = "Discover and play live internet radio on this machine. \
Reach for it whenever the user wants to listen to, find, or control a radio station - live music \
by genre (jazz, classical, reggae), news or talk radio, or a specific broadcaster. Typical flow: \
`radio_search` finds stations by name, genre, or tag via the public Radio Browser directory and \
returns a stream URL, then `radio_play` starts it, while `radio_stop` halts playback and \
`radio_now_playing` reports the current station. Playback runs a local `mpv` process, so audio \
comes out of the host machine's own speakers and mpv must be installed; station search needs no \
API key.";

/// The name this server goes by.
pub const SERVER_NAME: &'static str = "internet-radio-mcp";

/// How the server presents itself to a host.
#[derive(Debug)]
pub struct ServerConfig {
    pub name: String,
    pub version: String,
    /// Whether the WebSocket transport is offered beside stdio.
    pub websocket: bool,
    pub instructions: Option<String>,
}

/// The configuration of this server in the given version.
pub fn server_config(version: &str) -> (config: ServerConfig)
    ensures
        config.name@ == SERVER_NAME@,
        config.version@ == version@,
        config.websocket,
        config.instructions matches Some(blurb) && blurb@ == SERVER_INSTRUCTIONS@,
{
    ServerConfig {
        name: SERVER_NAME.to_owned(),
        version: version.to_owned(),
        websocket: true,
        instructions: Some(SERVER_INSTRUCTIONS.to_owned()),
    }
}

// ── tools and replies ────────────────────────────────────────────────────────

/// A tool that can be called.
#[derive(Debug)]
pub struct ToolDef {
    pub name: String,
    pub description: String,
    pub input_schema: Json,
}

/// The contents of a [`ToolDef`].
pub struct ToolDefView {
    pub name: Seq<char>,
    pub description: Seq<char>,
    pub input_schema: JsonView,
}

impl View for ToolDef {
    type V = ToolDefView;

    open spec fn view(&self) -> ToolDefView {
        ToolDefView {
            name: self.name@,
            description: self.description@,
            input_schema: self.input_schema@,
        }
    }
}

/// One piece of a reply.
#[derive(Debug)]
pub enum Content {
    Text(String),
    Json(Json),
}

/// The contents of a [`Content`].
pub enum ContentView {
    Text(Seq<char>),
    Json(JsonView),
}

impl View for Content {
    type V = ContentView;

    open spec fn view(&self) -> ContentView {
        match *self {
            Content::Text(t) => ContentView::Text(t@),
            Content::Json(value) => ContentView::Json(value@),
        }
    }
}

/// What a tool replies.
#[derive(Debug)]
pub struct ToolReply {
    pub content: Vec<Content>,
    pub is_error: bool,
}

/// The contents of a [`ToolReply`].
pub struct ToolReplyView {
    pub content: Seq<ContentView>,
    pub is_error: bool,
}

impl View for ToolReply {
    type V = ToolReplyView;

    open spec fn view(&self) -> ToolReplyView {
        ToolReplyView {
            content: Seq::new(self.content@.len(), |i: int| self.content@[i]@),
            is_error: self.is_error,
        }
    }
}

/// A reply of one text.
pub open spec fn text_reply(content: Seq<char>) -> ToolReplyView {
    ToolReplyView { content: seq![ContentView::Text(content)], is_error: false }
}

/// A reply of one JSON value.
pub open spec fn json_reply(value: JsonView) -> ToolReplyView {
    ToolReplyView { content: seq![ContentView::Json(value)], is_error: false }
}

impl ToolReply {
    /// A reply of one text.
    pub fn text(content: String) -> (reply: ToolReply)
        ensures
            reply@ == text_reply(content@),
    {
        let reply: ToolReply = ToolReply { content: vec![Content::Text(content)], is_error: false };
        assert(reply@.content =~= text_reply(content@).content);
        reply
    }

    /// A reply of one JSON value.
    pub fn json(value: Json) -> (reply: ToolReply)
        ensures
            reply@ == json_reply(value@),
    {
        let reply: ToolReply = ToolReply { content: vec![Content::Json(value)], is_error: false };
        assert(reply@.content =~= json_reply(value@).content);
        reply
    }
}

/// Why a call failed.
#[derive(Debug)]
pub enum CallError {
    /// The call was not understood.
    InvalidParams(String),
    /// The tool failed, or there is no such tool.
    Tool(String),
}

/// The contents of a [`CallError`].
pub enum CallErrorView {
    InvalidParams(Seq<char>),
    Tool(Seq<char>),
}

impl View for CallError {
    type V = CallErrorView;

    open spec fn view(&self) -> CallErrorView {
        match *self {
            CallError::InvalidParams(message) => CallErrorView::InvalidParams(message@),
            CallError::Tool(message) => CallErrorView::Tool(message@),
        }
    }
}

// ── counting upstream failures ───────────────────────────────────────────────

/// One more on a labelled counter. The texts are fixed in the program, so that no
/// label can hold what a caller chose.
#[derive(Debug)]
pub struct CounterIncrement {
    pub counter: &'static str,
    pub labels: Vec<(&'static str, &'static str)>,
}

/// The contents of a [`CounterIncrement`].
pub struct CounterIncrementView {
    pub counter: Seq<char>,
    pub labels: Seq<(Seq<char>, Seq<char>)>,
}

impl View for CounterIncrement {
    type V = CounterIncrementView;

    open spec fn view(&self) -> CounterIncrementView {
        CounterIncrementView {
            counter: self.counter@,
            labels: Seq::new(
                self.labels@.len(),
                |i: int| (self.labels@[i].0@, self.labels@[i].1@),
            ),
        }
    }
}

/// What is counted, if anything, by its contents.
pub open spec fn counted_view(counted: Option<CounterIncrement>) -> Option<CounterIncrementView> {
    match counted {
        Some(increment) => Some(increment@),
        None => None,
    }
}

/// The reason under which an error counts as an upstream failure, if it is one.
pub open spec fn failure_reason(error: InternetRadioMcpErrorView) -> Option<Seq<char>> {
    match error {
        InternetRadioMcpErrorView::Radio(RadioErrorView::ApiError(_)) => Some("directory"@),
        InternetRadioMcpErrorView::Radio(RadioErrorView::PlayerError(_)) => Some("player"@),
        _ => None,
    }
}

/// What is counted for an error of a tool.
pub open spec fn failure_count(
    tool: Seq<char>,
    error: InternetRadioMcpErrorView,
) -> Option<CounterIncrementView> {
    match failure_reason(error) {
        Some(reason) => Some(
            CounterIncrementView {
                counter: "radio.upstream_failures"@,
                labels: seq![("tool"@, tool), ("reason"@, reason)],
            },
        ),
        None => None,
    }
}

/// Classify an upstream-call failure into the reason that
/// [`record_upstream_failure`] counts, or `None` for a normal "not found" result
/// rather than a fault reaching outward: an empty Radio Browser result is the
/// directory doing its job.
pub fn upstream_failure_reason(err: &InternetRadioMcpError) -> (reason: Option<&'static str>)
    ensures
        match reason {
            Some(r) => failure_reason(err@) == Some(r@),
            None => failure_reason(err@) is None,
        },
{
    match err {
        InternetRadioMcpError::Radio(RadioError::ApiError(_)) => Some("directory"),
        InternetRadioMcpError::Radio(RadioError::PlayerError(_)) => Some("player"),
        InternetRadioMcpError::Radio(RadioError::NoStationsFound(_)) => None,
        InternetRadioMcpError::Mcp(_) => None,
        InternetRadioMcpError::Json(_) => None,
        InternetRadioMcpError::Io(_) => None,
    }
}

/// Count an upstream-call failure against `radio.upstream_failures`: the
/// increment that is due, if any. Neither label is built from a station name, a
/// search query, a UUID, or a stream URL.
pub fn record_upstream_failure<T>(
    tool: &'static str,
    outcome: &Result<T, InternetRadioMcpError>,
) -> (counted: Option<CounterIncrement>)
    ensures
        match *outcome {
            Ok(_) => counted is None,
            Err(e) => counted_view(counted) == failure_count(tool@, e@),
        },
{
    match outcome {
        Ok(_) => None,
        Err(e) => count_failure(tool, e),
    }
}

/// What is counted for an error of a tool.
fn count_failure(tool: &'static str, error: &InternetRadioMcpError) -> (counted: Option<
    CounterIncrement,
>)
    ensures
        counted_view(counted) == failure_count(tool@, error@),
{
    match upstream_failure_reason(error) {
        Some(reason) => {
            let increment: CounterIncrement = CounterIncrement {
                counter: "radio.upstream_failures",
                labels: vec![("tool", tool), ("reason", reason)],
            };
            assert(increment@.labels =~= failure_count(tool@, error@)->Some_0.labels);
            Some(increment)
        },
        None => None,
    }
}

// ── the tools ────────────────────────────────────────────────────────────────

/// The tools of the service.
pub open spec fn tool_catalog() -> Seq<ToolDefView> {
    seq![
        ToolDefView {
            name: "radio_search"@,
            description: "Find internet radio stations to listen to - search by station name, genre, or tag (e.g. jazz, news, classical) using the public Radio Browser directory. Returns matching stations, each with a stream URL, country, genre tags, bitrate, and popularity (vote count), best-voted first. Pass a returned stream URL to radio_play to start listening."@,
            input_schema: schema::search_parameters(),
        },
        ToolDefView {
            name: "radio_play"@,
            description: "Start playback of a radio station via mpv. Provide a direct stream URL (preferred) or a Radio Browser station UUID. Exactly one of 'url' or 'uuid' is required. Stops any currently-playing station first."@,
            input_schema: schema::play_parameters(),
        },
        ToolDefView {
            name: "radio_stop"@,
            description: "Stop the currently tracked radio station by terminating its mpv process. No-op if nothing is playing."@,
            input_schema: schema::no_parameters(),
        },
        ToolDefView {
            name: "radio_now_playing"@,
            description: "Return the name and stream URL of the currently-playing station, or a message indicating nothing is playing."@,
            input_schema: schema::no_parameters(),
        },
    ]
}

/// One tool.
fn tool_def(name: &str, description: &str, input_schema: Json) -> (tool: ToolDef)
    ensures
        tool@ == (ToolDefView {
            name: name@,
            description: description@,
            input_schema: input_schema@,
        }),
{
    ToolDef { name: name.to_owned(), description: description.to_owned(), input_schema }
}

/// How a search result shows a station.
pub open spec fn station_item(station: StationView) -> JsonView {
    JsonView::Object(
        seq![
            ("uuid"@, JsonView::Text(station.uuid)),
            ("name"@, JsonView::Text(station.name)),
            ("url"@, JsonView::Text(station.url_resolved)),
            ("country"@, JsonView::Text(station.country)),
            ("tags"@, JsonView::Text(station.tags)),
            ("bitrate_kbps"@, JsonView::Integer(station.bitrate as int)),
            ("codec"@, JsonView::Text(station.codec)),
            ("votes"@, JsonView::Integer(station.votes as int)),
        ],
    )
}

/// How a search result shows stations, in the given order.
pub open spec fn station_items(stations: Seq<StationView>) -> JsonView {
    JsonView::Array(Seq::new(stations.len(), |i: int| station_item(stations[i])))
}

/// Show a station.
fn show_station(station: &Station) -> (item: Json)
    ensures
        item@ == station_item(station@),
{
    let members: Vec<(String, Json)> = vec![
        entry("uuid", text(&station.uuid)),
        entry("name", text(&station.name)),
        entry("url", text(&station.url_resolved)),
        entry("country", text(&station.country)),
        entry("tags", text(&station.tags)),
        entry("bitrate_kbps", Json::Unsigned(station.bitrate as u64)),
        entry("codec", text(&station.codec)),
        entry("votes", Json::Signed(station.votes)),
    ];
    assert(json::member_views(members@) =~= station_item(station@)->Object_0);
    object(members)
}

/// Show stations, in order.
pub fn show_stations(stations: &Vec<Station>) -> (items: Json)
    ensures
        items@ == station_items(models::station_views(stations@)),
{
    let mut items: Vec<Json> = Vec::new();
    let mut i: usize = 0;
    while i < stations.len()
        invariant
            i <= stations.len(),
            items@.len() == i,
            forall|j: int| 0 <= j < i ==> #[trigger] items@[j]@ == station_item(stations@[j]@),
        decreases stations.len() - i,
    {
        items.push(show_station(&stations[i]));
        i += 1;
    }
    assert(json::item_views(items@) =~= station_items(
        models::station_views(stations@),
    )->Array_0);
    array(items)
}

// ── the course of a call ─────────────────────────────────────────────────────

/// The step of a call that has failed.
pub open spec fn failed(error: CallErrorView) -> StepView<ToolReplyView, CallErrorView> {
    StepView::Finished(Err(error))
}

/// The first step of `radio_search`.
pub open spec fn search_step(
    base: Seq<char>,
    args: Seq<(Seq<char>, JsonView)>,
) -> StepView<ToolReplyView, CallErrorView> {
    match json::text_member(args, "query"@) {
        Some(query) => StepView::Fetch {
            request: arguments::wanted_search(base, args, query),
            pending: PendingView::Search {
                query,
                limit: arguments::search_limit(json::unsigned_member(args, "limit"@)) as nat,
            },
        },
        None => failed(CallErrorView::InvalidParams("missing required parameter: query"@)),
    }
}

/// The first step of `radio_play`.
pub open spec fn play_step(
    base: Seq<char>,
    args: Seq<(Seq<char>, JsonView)>,
) -> StepView<ToolReplyView, CallErrorView> {
    match arguments::wanted_stream(args) {
        WantedStreamView::Direct(target) => StepView::Playback(PlaybackView::Play(target)),
        WantedStreamView::Lookup(uuid) => match radio::uuid_fault(uuid) {
            Some(fault) => failed(CallErrorView::InvalidParams(fault)),
            None => StepView::Fetch {
                request: radio::lookup_request(base, uuid),
                pending: PendingView::Lookup { uuid },
            },
        },
        WantedStreamView::Missing => failed(
            CallErrorView::InvalidParams("provide either 'url' or 'uuid' to play a station"@),
        ),
        WantedStreamView::Both => failed(
            CallErrorView::InvalidParams("exactly one of 'url' or 'uuid' is required"@),
        ),
    }
}

/// The first step of a call.
pub open spec fn first_step(
    base: Seq<char>,
    name: Seq<char>,
    arguments: JsonView,
) -> StepView<ToolReplyView, CallErrorView> {
    match arguments::argument_members(arguments) {
        None => failed(CallErrorView::InvalidParams("arguments must be an object"@)),
        Some(args) => if name == "radio_search"@ {
            search_step(base, args)
        } else if name == "radio_play"@ {
            play_step(base, args)
        } else if name == "radio_stop"@ {
            StepView::Playback(PlaybackView::Stop)
        } else if name == "radio_now_playing"@ {
            StepView::Playback(PlaybackView::Report)
        } else {
            failed(CallErrorView::Tool("unknown tool: "@ + name))
        },
    }
}

/// A step and what is counted with it.
#[derive(Debug)]
pub struct Progress {
    pub counted: Option<CounterIncrement>,
    pub step: Step<ToolReply, CallError>,
}

/// The contents of a [`Progress`].
pub struct ProgressView {
    pub counted: Option<CounterIncrementView>,
    pub step: StepView<ToolReplyView, CallErrorView>,
}

impl View for Progress {
    type V = ProgressView;

    open spec fn view(&self) -> ProgressView {
        ProgressView { counted: counted_view(self.counted), step: self.step@ }
    }
}

/// The message of a radio error.
pub open spec fn radio_text(error: InternetRadioMcpErrorView) -> Seq<char> {
    "Radio error: "@ + error->Radio_0.text()
}

/// A call of `tool` ends with a radio error.
pub open spec fn upstream_failed(
    tool: Seq<char>,
    error: InternetRadioMcpErrorView,
) -> ProgressView {
    ProgressView {
        counted: failure_count(tool, error),
        step: failed(CallErrorView::Tool(radio_text(error))),
    }
}

/// A call goes on, and nothing is counted.
pub open spec fn goes_on(step: StepView<ToolReplyView, CallErrorView>) -> ProgressView {
    ProgressView { counted: None, step }
}

/// A lookup ends with an error, or with no such station.
pub open spec fn lookup_failed(uuid: Seq<char>, error: InternetRadioMcpErrorView) -> ProgressView {
    if radio::is_absence(error) {
        goes_on(failed(CallErrorView::Tool("Station UUID not found: "@ + uuid)))
    } else {
        upstream_failed("radio_play"@, error)
    }
}

/// The tool whose call waits for the directory.
pub open spec fn waiting_tool(pending: PendingView) -> Seq<char> {
    match pending {
        PendingView::Search { .. } => "radio_search"@,
        PendingView::Lookup { .. } => "radio_play"@,
    }
}

/// The step once the directory has answered with a status code, or could not be
/// reached.
pub open spec fn responded(
    pending: PendingView,
    sent: Result<u16, Seq<char>>,
) -> ProgressView {
    match sent {
        Err(message) => upstream_failed(waiting_tool(pending), radio::api_error(message)),
        Ok(code) => match radio::status_fault(code) {
            Some(e) => upstream_failed(waiting_tool(pending), e),
            None => goes_on(StepView::ReadBody { pending }),
        },
    }
}

/// The step once the body of the directory's answer was read, or could not be.
pub open spec fn body_read(
    pending: PendingView,
    body: Result<Seq<StationView>, Seq<char>>,
) -> ProgressView {
    match pending {
        PendingView::Search { query, limit } => match radio::stations_in(body, query) {
            Ok(stations) => goes_on(
                StepView::Finished(
                    Ok(json_reply(station_items(ranking::best_first(stations, limit)))),
                ),
            ),
            Err(e) => upstream_failed("radio_search"@, e),
        },
        PendingView::Lookup { uuid } => match radio::stations_in(body, uuid) {
            Ok(stations) => goes_on(
                StepView::Playback(
                    PlaybackView::Play(
                        StreamTargetView {
                            url: stations[0].url_resolved,
                            name: stations[0].name,
                            uuid,
                        },
                    ),
                ),
            ),
            Err(e) => lookup_failed(uuid, e),
        },
    }
}

/// The radio service, apart from what is playing.
#[derive(Debug)]
pub struct RadioService {
    radio_browser_base: String,
}

impl RadioService {
    /// Where the service finds the directory.
    pub closed spec fn base(&self) -> Seq<char> {
        self.radio_browser_base@
    }

    /// Create a new service instance. `configured_base` is the directory address
    /// that the environment sets, if it sets one.
    pub fn new(configured_base: Option<String>) -> (service: RadioService)
        ensures
            service.base() == match configured_base {
                Some(base) => base@,
                None => radio::RADIO_BROWSER_BASE@,
            },
    {
        match configured_base {
            Some(base) => RadioService { radio_browser_base: base },
            None => RadioService { radio_browser_base: radio::RADIO_BROWSER_BASE.to_owned() },
        }
    }

    /// Create a service instance pointed at a custom directory address, whatever
    /// the environment sets.
    pub fn with_radio_browser_base(base_url: String) -> (service: RadioService)
        ensures
            service.base() == base_url@,
    {
        RadioService { radio_browser_base: base_url }
    }

    /// The tools of the service.
    pub fn tools(&self) -> (tools: Vec<ToolDef>)
        ensures
            Seq::new(tools@.len(), |i: int| tools@[i]@) == tool_catalog(),
    {
        let tools: Vec<ToolDef> = vec![
            tool_def(
                "radio_search",
                "Find internet radio stations to listen to - search by station name, genre, or tag (e.g. jazz, news, classical) using the public Radio Browser directory. Returns matching stations, each with a stream URL, country, genre tags, bitrate, and popularity (vote count), best-voted first. Pass a returned stream URL to radio_play to start listening.",
                schema::search_input_schema(),
            ),
            tool_def(
                "radio_play",
                "Start playback of a radio station via mpv. Provide a direct stream URL (preferred) or a Radio Browser station UUID. Exactly one of 'url' or 'uuid' is required. Stops any currently-playing station first.",
                schema::play_input_schema(),
            ),
            tool_def(
                "radio_stop",
                "Stop the currently tracked radio station by terminating its mpv process. No-op if nothing is playing.",
                schema::empty_input_schema(),
            ),
            tool_def(
                "radio_now_playing",
                "Return the name and stream URL of the currently-playing station, or a message indicating nothing is playing.",
                schema::empty_input_schema(),
            ),
        ];
        assert(Seq::new(tools@.len(), |i: int| tools@[i]@) =~= tool_catalog());
        tools
    }

    /// Call a tool: the first step of the call.
    pub fn call_tool(&self, name: &str, arguments: &Json) -> (step: Step<ToolReply, CallError>)
        ensures
            step@ == first_step(self.base(), name@, arguments@),
    {
        // Nothing at all will do as arguments, for tools without parameters.
        let none: Vec<(String, Json)> = Vec::new();
        let args: &Vec<(String, Json)> = match arguments {
            Json::Object(members) => members,
            Json::Null => &none,
            _ => return Step::Finished(
                Err(CallError::InvalidParams("arguments must be an object".to_owned())),
            ),
        };
        proof {
            assert(json::member_views(none@) =~= Seq::empty());
            if let Json::Object(members) = arguments {
                assert(arguments@->Object_0 =~= json::member_views(members@));
            }
            assert(arguments::argument_members(arguments@) == Some(json::member_views(args@)));
        }
        if same_text(name, "radio_search") {
            self.exec_radio_search(args)
        } else if same_text(name, "radio_play") {
            self.exec_radio_play(args)
        } else if same_text(name, "radio_stop") {
            Step::Playback(Playback::Stop)
        } else if same_text(name, "radio_now_playing") {
            Step::Playback(Playback::Report)
        } else {
            Step::Finished(Err(CallError::Tool(join("unknown tool: ", name))))
        }
    }

    /// Begin a search.
    pub fn exec_radio_search(&self, args: &Vec<(String, Json)>) -> (step: Step<
        ToolReply,
        CallError,
    >)
        ensures
            step@ == search_step(self.base(), json::member_views(args@)),
    {
        match search_arguments(&self.radio_browser_base, args) {
            Some(search) => Step::Fetch {
                request: search.request,
                pending: Pending::Search { query: search.query, limit: search.limit },
            },
            None => Step::Finished(
                Err(CallError::InvalidParams("missing required parameter: query".to_owned())),
            ),
        }
    }

    /// Begin to play. A UUID is validated before it becomes part of an address.
    pub fn exec_radio_play(&self, args: &Vec<(String, Json)>) -> (step: Step<ToolReply, CallError>)
        ensures
            step@ == play_step(self.base(), json::member_views(args@)),
    {
        match play_arguments(args) {
            WantedStream::Direct(target) => Step::Playback(Playback::Play(target)),
            WantedStream::Lookup(uuid) => {
                match radio::station_by_uuid(&self.radio_browser_base, &uuid) {
                    Ok(request) => {
                        proof {
                            radio::law_uuids_accepted(uuid@);
                        }
                        Step::Fetch { request, pending: Pending::Lookup { uuid } }
                    },
                    Err(InternetRadioMcpError::Mcp(McpError::InvalidToolParameters(message))) => {
                        Step::Finished(Err(CallError::InvalidParams(message)))
                    },
                    Err(other) => Step::Finished(Err(CallError::Tool(other.to_string()))),
                }
            },
            WantedStream::Missing => Step::Finished(
                Err(
                    CallError::InvalidParams(
                        "provide either 'url' or 'uuid' to play a station".to_owned(),
                    ),
                ),
            ),
            WantedStream::Both => Step::Finished(
                Err(
                    CallError::InvalidParams(
                        "exactly one of 'url' or 'uuid' is required".to_owned(),
                    ),
                ),
            ),
        }
    }

    /// The directory has answered with a status code, or could not be reached for
    /// the given reason.
    pub fn directory_responded(&self, pending: Pending, sent: Result<u16, String>) -> (progress:
        Progress)
        requires
            sent matches Ok(code) ==> 100 <= code <= 999,
        ensures
            progress@ == responded(pending@, radio::told(sent)),
    {
        let tool: &'static str = match &pending {
            Pending::Search { .. } => "radio_search",
            Pending::Lookup { .. } => "radio_play",
        };
        let code: u16 = match radio::request_sent(sent) {
            Ok(code) => code,
            Err(e) => return end_with(tool, e),
        };
        match radio::accept_status(code) {
            Ok(()) => Progress { counted: None, step: Step::ReadBody { pending } },
            Err(e) => end_with(tool, e),
        }
    }

    /// The body of the directory's answer was read, or could not be for the given
    /// reason.
    pub fn directory_body_read(
        &self,
        pending: Pending,
        body: Result<Vec<Station>, String>,
    ) -> (progress: Progress)
        ensures
            progress@ == body_read(pending@, radio::body_view(body)),
    {
        match pending {
            Pending::Search { query, limit } => {
                match radio::parse_stations_response(body, &query) {
                    Ok(stations) => {
                        let shown: Vec<Station> = best_voted(stations, limit as usize);
                        Progress {
                            counted: None,
                            step: Step::Finished(Ok(ToolReply::json(show_stations(&shown)))),
                        }
                    },
                    Err(e) => end_with("radio_search", e),
                }
            },
            Pending::Lookup { uuid } => {
                let answer: Result<Vec<Station>, InternetRadioMcpError> =
                    radio::parse_stations_response(body, &uuid);
                end_lookup(uuid, answer)
            },
        }
    }
}

/// End a call of `tool` with a radio error.
fn end_with(tool: &'static str, error: InternetRadioMcpError) -> (progress: Progress)
    requires
        error@ is Radio,
    ensures
        progress@ == upstream_failed(tool@, error@),
{
    Progress {
        counted: count_failure(tool, &error),
        step: Step::Finished(Err(CallError::Tool(error.to_string()))),
    }
}

/// Go on with what a lookup found.
fn end_lookup(uuid: String, answer: Result<Vec<Station>, InternetRadioMcpError>) -> (progress:
    Progress)
    requires
        answer matches Ok(list) ==> list@.len() > 0,
        answer matches Err(e) ==> e@ is Radio,
    ensures
        match answer {
            Ok(list) => progress@ == goes_on(
                StepView::Playback(
                    PlaybackView::Play(
                        StreamTargetView {
                            url: list@[0].url_resolved@,
                            name: list@[0].name@,
                            uuid: uuid@,
                        },
                    ),
                ),
            ),
            Err(e) => progress@ == lookup_failed(uuid@, e@),
        },
{
    let found: Result<Option<Station>, InternetRadioMcpError> = radio::station_found(answer);
    let counted: Option<CounterIncrement> = record_upstream_failure("radio_play", &found);
    let step: Step<ToolReply, CallError> = match found {
        Ok(Some(station)) => Step::Playback(
            Playback::Play(StreamTarget { url: station.url_resolved, name: station.name, uuid }),
        ),
        Ok(None) => Step::Finished(
            Err(CallError::Tool(join("Station UUID not found: ", &uuid))),
        ),
        Err(e) => Step::Finished(Err(CallError::Tool(e.to_string()))),
    };
    Progress { counted, step }
}

// ── the course of a call under the lock on what is playing ───────────────────

/// A step under the lock and what is counted with it.
#[derive(Debug)]
pub struct PlaybackProgress<C> {
    pub counted: Option<CounterIncrement>,
    pub step: PlaybackStep<C, ToolReply, CallError>,
}

/// The contents of a [`PlaybackProgress`].
pub struct PlaybackProgressView<C> {
    pub counted: Option<CounterIncrementView>,
    pub step: PlaybackStepView<C, ToolReplyView, CallErrorView>,
}

impl<C> View for PlaybackProgress<C> {
    type V = PlaybackProgressView<C>;

    open spec fn view(&self) -> PlaybackProgressView<C> {
        PlaybackProgressView { counted: counted_view(self.counted), step: self.step@ }
    }
}

/// A call is over with a text.
pub open spec fn replied<C>(content: Seq<char>) -> PlaybackProgressView<C> {
    PlaybackProgressView {
        counted: None,
        step: PlaybackStepView::Finished(Ok(text_reply(content))),
    }
}

/// A call is over with a radio error, `counted` being counted with it.
pub open spec fn play_failed<C>(
    error: InternetRadioMcpErrorView,
    counted: Option<CounterIncrementView>,
) -> PlaybackProgressView<C> {
    PlaybackProgressView {
        counted,
        step: PlaybackStepView::Finished(Err(CallErrorView::Tool(radio_text(error)))),
    }
}

/// A step of playing a stream, as a step of the call. An address that may not be
/// played never reaches the player, so it does not count as a fault of the player.
pub open spec fn playing<C>(step: PlayStepView<C>) -> PlaybackProgressView<C> {
    match step {
        PlayStepView::StopPrior { child, target } => PlaybackProgressView {
            counted: None,
            step: PlaybackStepView::StopPrior { child, target },
        },
        PlayStepView::Spawn { command, target } => PlaybackProgressView {
            counted: None,
            step: PlaybackStepView::Spawn { command, target },
        },
        PlayStepView::Failed(e) => play_failed(e, None),
    }
}

/// The first step under the lock.
pub open spec fn playback_step<C>(
    np: NowPlayingView<C>,
    playback: PlaybackView,
) -> PlaybackProgressView<C> {
    match playback {
        PlaybackView::Play(target) => playing(playback::first_step(np, target)),
        PlaybackView::Stop => match np.child {
            Some(child) => PlaybackProgressView {
                counted: None,
                step: PlaybackStepView::StopTracked { child },
            },
            None => replied(playback::stopped_text()),
        },
        PlaybackView::Report => replied(playback::report_text(np.station)),
    }
}

/// What is playing after the first step under the lock.
pub open spec fn playback_state<C>(
    np: NowPlayingView<C>,
    playback: PlaybackView,
) -> NowPlayingView<C> {
    match playback {
        PlaybackView::Play(_) => playback::idle(),
        PlaybackView::Stop => match np.child {
            Some(_) => playback::untracked(np),
            None => playback::after_stop(np),
        },
        PlaybackView::Report => np,
    }
}

/// The step once the player was started, or could not be. That it could not be counts
/// as a fault of the player.
pub open spec fn spawned_step<C>(
    target: StreamTargetView,
    outcome: Result<C, Seq<char>>,
) -> PlaybackProgressView<C> {
    match playback::play_reply(target, outcome) {
        Ok(content) => replied(content),
        Err(e) => play_failed(e, failure_count("radio_play"@, e)),
    }
}

impl RadioService {
    /// Begin what a call does with what is playing.
    pub fn begin_playback<C>(&self, np: &mut NowPlaying<C>, playback: Playback) -> (progress:
        PlaybackProgress<C>)
        ensures
            progress@ == playback_step(old(np)@, playback@),
            final(np)@ == playback_state(old(np)@, playback@),
    {
        match playback {
            Playback::Play(target) => as_progress(np.begin_play(target)),
            Playback::Stop => PlaybackProgress { counted: None, step: self.exec_radio_stop(np) },
            Playback::Report => PlaybackProgress {
                counted: None,
                step: PlaybackStep::Finished(Ok(self.exec_radio_now_playing(np))),
            },
        }
    }

    /// The player that was tracked so far is stopped, or could not be: go on to
    /// play either way.
    pub fn prior_stopped<C>(&self, target: StreamTarget) -> (progress: PlaybackProgress<C>)
        ensures
            progress@ == playing(playback::start_step::<C>(target@)),
    {
        as_progress(start_play(target))
    }

    /// The player was started, or could not be for the given reason.
    pub fn player_spawned<C>(
        &self,
        np: &mut NowPlaying<C>,
        target: StreamTarget,
        outcome: Result<C, String>,
    ) -> (progress: PlaybackProgress<C>)
        ensures
            progress@ == spawned_step(target@, radio::told(outcome)),
            final(np)@ == playback::after_spawn(old(np)@, target@, radio::told(outcome)),
    {
        match np.finish_play(target, outcome) {
            Ok(content) => PlaybackProgress {
                counted: None,
                step: PlaybackStep::Finished(Ok(ToolReply::text(content))),
            },
            Err(e) => PlaybackProgress {
                counted: count_failure("radio_play", &e),
                step: PlaybackStep::Finished(Err(CallError::Tool(e.to_string()))),
            },
        }
    }

    /// Begin to stop playback. With nothing playing this is a no-op, not an error.
    pub fn exec_radio_stop<C>(&self, np: &mut NowPlaying<C>) -> (step: PlaybackStep<
        C,
        ToolReply,
        CallError,
    >)
        ensures
            step@ == playback_step(old(np)@, PlaybackView::Stop).step,
            final(np)@ == playback_state(old(np)@, PlaybackView::Stop),
    {
        match np.begin_stop() {
            Some(child) => PlaybackStep::StopTracked { child },
            None => PlaybackStep::Finished(self.tracked_stopped(np, Ok(()))),
        }
    }

    /// The player that was tracked so far is stopped, or could not be.
    pub fn tracked_stopped<C>(
        &self,
        np: &mut NowPlaying<C>,
        stopped: Result<(), InternetRadioMcpError>,
    ) -> (reply: Result<ToolReply, CallError>)
        ensures
            match stopped {
                Ok(()) => final(np)@ == playback::after_stop(old(np)@) && (reply matches Ok(r)
                    && r@ == text_reply(playback::stopped_text())),
                Err(e) => *final(np) == *old(np) && (reply matches Err(CallError::Tool(message))
                    && e@.shows(message@)),
            },
    {
        match np.finish_stop(stopped) {
            Ok(content) => Ok(ToolReply::text(content)),
            Err(e) => Err(CallError::Tool(e.to_string())),
        }
    }

    /// Say what is playing.
    pub fn exec_radio_now_playing<C>(&self, np: &NowPlaying<C>) -> (reply: ToolReply)
        ensures
            reply@ == text_reply(playback::report_text(np@.station)),
    {
        ToolReply::text(np.report())
    }
}

/// A step of playing a stream, as a step of the call.
fn as_progress<C>(step: PlayStep<C>) -> (progress: PlaybackProgress<C>)
    requires
        step@ matches PlayStepView::Failed(e) ==> e is Radio,
    ensures
        progress@ == playing(step@),
{
    match step {
        PlayStep::StopPrior { child, target } => PlaybackProgress {
            counted: None,
            step: PlaybackStep::StopPrior { child, target },
        },
        PlayStep::Spawn { command, target } => PlaybackProgress {
            counted: None,
            step: PlaybackStep::Spawn { command, target },
        },
        PlayStep::Failed(e) => PlaybackProgress {
            counted: None,
            step: PlaybackStep::Finished(Err(CallError::Tool(e.to_string()))),
        },
    }
}

// ── what the service keeps to ────────────────────────────────────────────────

/// Each of the four tools has a name of its own.
pub(crate) proof fn lemma_tool_names_differ()
    ensures
        "radio_search"@ != "radio_play"@,
        "radio_search"@ != "radio_stop"@,
        "radio_search"@ != "radio_now_playing"@,
        "radio_play"@ != "radio_stop"@,
        "radio_play"@ != "radio_now_playing"@,
        "radio_stop"@ != "radio_now_playing"@,
        tool_catalog().len() == 4,
        forall|i: int, j: int|
            0 <= i < j < 4 ==> (#[trigger] tool_catalog()[i]).name != (
            #[trigger] tool_catalog()[j]).name,
{
    reveal_strlit("radio_search");
    reveal_strlit("radio_play");
    reveal_strlit("radio_stop");
    reveal_strlit("radio_now_playing");
    assert("radio_search"@.len() == 12 && "radio_play"@.len() == 10 && "radio_stop"@.len() == 10
        && "radio_now_playing"@.len() == 17);
    assert("radio_play"@[6] == 'p' && "radio_stop"@[6] == 's');
}

/// The tools that are listed are exactly the ones that can be called.
pub proof fn law_listed_tools_are_the_ones_called(
    base: Seq<char>,
    name: Seq<char>,
    arguments: JsonView,
)
    requires
        arguments is Object || arguments is Null,
    ensures
        first_step(base, name, arguments) == failed(CallErrorView::Tool("unknown tool: "@ + name))
            <==> forall|i: int|
            0 <= i < tool_catalog().len() ==> (#[trigger] tool_catalog()[i]).name != name,
{
    assert(tool_catalog()[0].name == "radio_search"@);
    assert(tool_catalog()[1].name == "radio_play"@);
    assert(tool_catalog()[2].name == "radio_stop"@);
    assert(tool_catalog()[3].name == "radio_now_playing"@);
}

/// Calling a tool without arguments is calling it with an empty object.
pub proof fn law_no_arguments_are_empty_arguments(base: Seq<char>, name: Seq<char>)
    ensures
        first_step(base, name, JsonView::Null) == first_step(
            base,
            name,
            JsonView::Object(Seq::empty()),
        ),
{
}

/// A call is rejected as invalid exactly where its arguments are no object, a
/// search does not say what to search for, or a play names neither an address nor
/// a UUID, or both, or a UUID that is not well-formed. Nothing is asked of the
/// directory or the player then.
pub proof fn law_invalid_calls(base: Seq<char>, name: Seq<char>, arguments: JsonView)
    ensures
        first_step(base, name, arguments) matches StepView::Finished(
            Err(CallErrorView::InvalidParams(_)),
        ) <==> match arguments::argument_members(arguments) {
            None => true,
            Some(args) => {
                ||| name == "radio_search"@ && json::text_member(args, "query"@) is None
                ||| name == "radio_play"@ && match (
                    json::text_member(args, "url"@),
                    json::text_member(args, "uuid"@),
                ) {
                    (Some(_), Some(_)) => true,
                    (Some(_), None) => false,
                    (None, Some(uuid)) => !radio::is_uuid(uuid),
                    (None, None) => true,
                }
            },
        },
{
    if let Some(args) = arguments::argument_members(arguments) {
        if let Some(uuid) = json::text_member(args, "uuid"@) {
            radio::law_uuids_accepted(uuid);
        }
        lemma_tool_names_differ();
        assert(tool_catalog()[0].name != tool_catalog()[1].name);
    }
}

/// The address that a lookup asks is the directory's, followed by hexadecimal
/// digits and hyphens alone: a UUID cannot alter where the request goes.
pub proof fn law_lookup_address_is_not_altered(
    base: Seq<char>,
    name: Seq<char>,
    arguments: JsonView,
)
    requires
        first_step(base, name, arguments) matches StepView::Fetch {
            pending: PendingView::Lookup { .. },
            ..
        },
    ensures
        ({
            let step = first_step(base, name, arguments);
            let uuid = step->Fetch_pending->Lookup_uuid;
            &&& step->Fetch_request.url == base + "/stations/byuuid/"@ + uuid
            &&& step->Fetch_request.query == Seq::<(Seq<char>, Seq<char>)>::empty()
            &&& radio::is_uuid(uuid)
            &&& forall|i: int|
                0 <= i < uuid.len() ==> {
                    let c = #[trigger] uuid[i];
                    c != '/' && c != '?' && c != '#' && c != '&' && c != '%' && c != '.' && c != ':'
                        && c != '@'
                }
        }),
{
    let uuid = first_step(base, name, arguments)->Fetch_pending->Lookup_uuid;
    radio::law_uuids_accepted(uuid);
}

/// `genre` is another word for `tag`.
pub proof fn law_genre_means_tag(
    base: Seq<char>,
    by_tag: Seq<(Seq<char>, JsonView)>,
    by_genre: Seq<(Seq<char>, JsonView)>,
)
    requires
        json::text_member(by_tag, "by"@) == Some("tag"@),
        json::text_member(by_genre, "by"@) == Some("genre"@),
        json::text_member(by_tag, "query"@) == json::text_member(by_genre, "query"@),
        json::unsigned_member(by_tag, "limit"@) == json::unsigned_member(by_genre, "limit"@),
    ensures
        search_step(base, by_tag) == search_step(base, by_genre),
{
}

/// A search asks for as many results as the caller says, but never for fewer than
/// one or more than fifty, and for ten where the caller does not say. The limit that
/// the directory is asked to keep to is the one that the answer is held to.
pub proof fn law_search_limit(base: Seq<char>, args: Seq<(Seq<char>, JsonView)>)
    requires
        json::text_member(args, "query"@) is Some,
    ensures
        ({
            let asked = json::unsigned_member(args, "limit"@);
            let limit = arguments::search_limit(asked);
            let field = arguments::search_field(json::text_member(args, "by"@));
            let query = json::text_member(args, "query"@)->Some_0;
            &&& 1 <= limit <= 50
            &&& asked is None ==> limit == 10
            &&& asked matches Some(n) ==> limit == if n < 1 {
                1
            } else if n <= 50 {
                n
            } else {
                50
            }
            &&& search_step(base, args) == (StepView::<ToolReplyView, CallErrorView>::Fetch {
                request: radio::search_request(base, field, query, limit as nat),
                pending: PendingView::Search { query, limit: limit as nat },
            })
        }),
{
}

/// What is counted for an error depends on its kind alone, not on what it says:
/// a directory fault and a player fault count as such, and nothing else counts.
pub proof fn law_counts_do_not_tell_contents(
    tool: Seq<char>,
    error: InternetRadioMcpErrorView,
    message: Seq<char>,
)
    ensures
        error is Radio && error->Radio_0 is ApiError ==> failure_count(tool, error)
            == failure_count(tool, radio::api_error(message)),
        error is Radio && error->Radio_0 is PlayerError ==> failure_count(tool, error)
            == failure_count(tool, radio::player_error(message)),
        !(error is Radio) || error->Radio_0 is NoStationsFound ==> failure_count(tool, error)
            is None,
        failure_count(tool, error) matches Some(increment) ==> increment.labels.len() == 2
            && increment.labels[0] == ("tool"@, tool) && increment.labels[1].0 == "reason"@ && (
        increment.labels[1].1 == "directory"@ || increment.labels[1].1 == "player"@),
{
}

/// A directory that cannot be reached is counted as a directory fault, whatever
/// was asked of it.
pub proof fn law_unreachable_directory_is_counted(pending: PendingView, message: Seq<char>)
    ensures
        ({
            responded(pending, Err(message)).counted == failure_count(
                waiting_tool(pending),
                radio::api_error(message),
            ) && responded(pending, Err(message)).counted is Some
        }),
{
}

/// A request that the directory answers with a status code other than one of success
/// ends the call and is counted as a directory fault, whatever was asked. It is never
/// taken for the absence of a station.
pub proof fn law_refused_request_is_counted(pending: PendingView, code: u16)
    requires
        !(200 <= code <= 299),
    ensures
        responded(pending, Ok(code)) == (ProgressView {
            counted: Some(
                CounterIncrementView {
                    counter: "radio.upstream_failures"@,
                    labels: seq![("tool"@, waiting_tool(pending)), ("reason"@, "directory"@)],
                },
            ),
            step: failed(CallErrorView::Tool(radio_text(radio::status_fault(code)->Some_0))),
        }),
{
}

/// An empty result is the directory doing its job: a search says so, a lookup
/// says that there is no such station, and neither is counted.
pub proof fn law_empty_result_is_not_counted(asked: Seq<char>, limit: nat)
    ensures
        body_read(PendingView::Search { query: asked, limit }, Ok(Seq::empty())) == goes_on(
            failed(
                CallErrorView::Tool("Radio error: "@ + ("No stations found for query: "@ + asked)),
            ),
        ),
        body_read(PendingView::Lookup { uuid: asked }, Ok(Seq::empty())) == goes_on(
            failed(CallErrorView::Tool("Station UUID not found: "@ + asked)),
        ),
{
}

/// A body that could not be read or decoded is a directory fault, for a lookup too,
/// whatever the failure says.
pub proof fn law_unreadable_body_is_counted(pending: PendingView, message: Seq<char>)
    ensures
        body_read(pending, Err(message)) == upstream_failed(
            waiting_tool(pending),
            radio::api_error(message),
        ),
        body_read(pending, Err(message)).counted is Some,
{
}

/// A search that found something shows at most as many stations as were asked for,
/// and all that were found where those are no more.
pub proof fn law_search_keeps_to_the_limit(
    query: Seq<char>,
    limit: nat,
    stations: Seq<StationView>,
)
    requires
        stations.len() > 0,
    ensures
        ({
            let shown = ranking::best_first(stations, limit);
            &&& body_read(PendingView::Search { query, limit }, Ok(stations)) == goes_on(
                StepView::Finished(Ok(json_reply(station_items(shown)))),
            )
            &&& station_items(shown)->Array_0.len() <= limit
            &&& stations.len() <= limit ==> station_items(shown)->Array_0.len()
                == stations.len()
        }),
{
}

/// A search shows stations that were found, the best-voted first, and no station
/// twice. Stations with the same votes are shown in the order they were found.
pub proof fn law_search_shows_best_voted_first(
    query: Seq<char>,
    limit: nat,
    stations: Seq<StationView>,
    i: int,
    j: int,
)
    requires
        0 <= i < j < ranking::best_first(stations, limit).len(),
    ensures
        ({
            let shown = ranking::best_first(stations, limit);
            let order = ranking::best_first_order(ranking::votes_of(stations));
            let items = station_items(shown)->Array_0;
            &&& body_read(PendingView::Search { query, limit }, Ok(stations)) == goes_on(
                StepView::Finished(Ok(json_reply(station_items(shown)))),
            )
            &&& items[i] == station_item(stations[order[i]])
            &&& items[j] == station_item(stations[order[j]])
            &&& order[i] != order[j]
            &&& stations[order[i]].votes >= stations[order[j]].votes
            &&& stations[order[i]].votes == stations[order[j]].votes ==> order[i] < order[j]
        }),
{
    ranking::law_best_voted_come_first(stations, limit, i, j);
}

/// The address that a search result shows can be played as it is: what is then
/// played is that station's stream, under the name given.
pub proof fn law_search_result_can_be_played(
    base: Seq<char>,
    station: StationView,
    args: Seq<(Seq<char>, JsonView)>,
)
    requires
        json::text_member(args, "url"@) == json::text_member(
            station_item(station)->Object_0,
            "url"@,
        ),
        json::text_member(args, "name"@) == json::text_member(
            station_item(station)->Object_0,
            "name"@,
        ),
        json::text_member(args, "uuid"@) is None,
    ensures
        play_step(base, args) == StepView::<ToolReplyView, CallErrorView>::Playback(
            PlaybackView::Play(
                StreamTargetView {
                    url: station.url_resolved,
                    name: station.name,
                    uuid: Seq::empty(),
                },
            ),
        ),
{
    reveal_strlit("uuid");
    reveal_strlit("name");
    reveal_strlit("url");
    assert("uuid"@.len() == 4 && "name"@.len() == 4 && "url"@.len() == 3);
    assert("uuid"@[0] == 'u' && "name"@[0] == 'n');
    let members = station_item(station)->Object_0;
    reveal_with_fuel(json::member, 4);
    assert(json::member(members, "name"@) == Some(JsonView::Text(station.name)));
    assert(json::member(members, "url"@) == Some(JsonView::Text(station.url_resolved)));
}

/// Where an address and a UUID are both given, the call is rejected: nothing is looked
/// up, stopped or started.
pub proof fn law_address_and_uuid_exclude_each_other(
    base: Seq<char>,
    args: Seq<(Seq<char>, JsonView)>,
)
    requires
        json::text_member(args, "url"@) is Some,
        json::text_member(args, "uuid"@) is Some,
    ensures
        play_step(base, args) == failed(
            CallErrorView::InvalidParams("exactly one of 'url' or 'uuid' is required"@),
        ),
{
}

/// An address that may not be played is refused before the player is reached, so
/// nothing is counted. A player that does not start is a fault of the player, and
/// counted as such.
pub proof fn law_only_player_faults_are_counted<C>(target: StreamTargetView, message: Seq<char>)
    ensures
        !radio::is_stream_url(target.url) ==> playing(playback::start_step::<C>(target))
            == play_failed::<C>(radio::stream_url_fault(target.url), None),
        spawned_step::<C>(target, Err(message)).counted == Some(
            CounterIncrementView {
                counter: "radio.upstream_failures"@,
                labels: seq![("tool"@, "radio_play"@), ("reason"@, "player"@)],
            },
        ),
{
}

/// What is said to be playing does not depend on the player process.
pub proof fn law_report_does_not_tell_the_process<C>(
    one: NowPlayingView<C>,
    other: NowPlayingView<C>,
)
    requires
        one.station == other.station,
    ensures
        playback_step(one, PlaybackView::Report) == playback_step(other, PlaybackView::Report),
        playback_state(one, PlaybackView::Report) == one,
{
}

/// Stopping with nothing playing is no error: it says that playback is stopped
/// and stops no process.
pub proof fn law_stop_with_nothing_playing<C>(np: NowPlayingView<C>)
    requires
        np.child is None,
    ensures
        playback_step(np, PlaybackView::Stop) == replied::<C>("⏹ Playback stopped."@),
        playback_state(np, PlaybackView::Stop) == playback::idle::<C>(),
{
}

/// The service takes the steps of [`playback::play_course`], one after the other,
/// and replies as it says: what holds of the course holds of the service.
pub proof fn law_service_follows_the_play_course<C>(
    np: NowPlayingView<C>,
    target: StreamTargetView,
    outcome: Result<C, Seq<char>>,
)
    ensures
        ({
            let course = playback::play_course(np, target, outcome);
            let last = course.steps.last();
            &&& playback_step(np, PlaybackView::Play(target)) == playing(course.steps[0])
            &&& playback_state(np, PlaybackView::Play(target)) == playback::idle::<C>()
            &&& course.steps[0] is StopPrior ==> last == playback::start_step::<C>(target)
            &&& last is Spawn ==> playback::after_spawn(
                playback::idle::<C>(),
                target,
                outcome,
            ) == course.np && spawned_step(target, outcome).step == match course.reply {
                Ok(content) => replied::<C>(content).step,
                Err(e) => PlaybackStepView::Finished(Err(CallErrorView::Tool(radio_text(e)))),
            }
            &&& last is Failed ==> playback::idle::<C>() == course.np && playing(last).step
                == PlaybackStepView::<C, ToolReplyView, CallErrorView>::Finished(
                Err(CallErrorView::Tool(radio_text(course.reply->Err_0))),
            )
        }),
{
}

/// The service stops as [`playback::after_deed`] says: it hands the player that is
/// tracked, and no other, to the stop, and what is then playing is what it says.
pub proof fn law_service_follows_the_stop<C>(np: NowPlayingView<C>, succeeded: bool)
    ensures
        ({
            let deed = playback::Deed::<C>::Stopped { succeeded };
            let state = playback_state(np, PlaybackView::Stop);
            match np.child {
                Some(child) => {
                    &&& playback_step(np, PlaybackView::Stop).step
                        == (PlaybackStepView::<C, ToolReplyView, CallErrorView>::StopTracked {
                        child,
                    })
                    &&& playback::handed_to_stop_by(np, deed) == seq![child]
                    &&& playback::after_deed(np, deed) == if succeeded {
                        playback::after_stop(state)
                    } else {
                        state
                    }
                },
                None => {
                    &&& playback_step(np, PlaybackView::Stop).step is Finished
                    &&& playback::handed_to_stop_by(np, deed) == Seq::<C>::empty()
                    &&& playback::after_deed(np, deed) == state
                },
            }
        }),
{
}

/// Playing by UUID: a well-formed UUID is looked up, and the first station that
/// the directory finds is played, tracked and reported.
pub proof fn law_station_found_by_uuid_is_played<C>(
    base: Seq<char>,
    args: Seq<(Seq<char>, JsonView)>,
    uuid: Seq<char>,
    code: u16,
    stations: Seq<StationView>,
    np: NowPlayingView<C>,
    child: C,
)
    requires
        json::text_member(args, "url"@) is None,
        json::text_member(args, "uuid"@) == Some(uuid),
        radio::is_uuid(uuid),
        200 <= code <= 299,
        stations.len() > 0,
        radio::is_stream_url(stations[0].url_resolved),
    ensures
        ({
            let pending = PendingView::Lookup { uuid };
            let target = StreamTargetView {
                url: stations[0].url_resolved,
                name: stations[0].name,
                uuid,
            };
            let course = playback::play_course(np, target, Ok(child));
            &&& play_step(base, args) == (StepView::<ToolReplyView, CallErrorView>::Fetch {
                request: radio::lookup_request(base, uuid),
                pending,
            })
            &&& responded(pending, Ok(code)) == goes_on(StepView::ReadBody { pending })
            &&& body_read(pending, Ok(stations)) == goes_on(
                StepView::Playback(PlaybackView::Play(target)),
            )
            &&& spawned_step(target, Ok(child)) == replied::<C>(playback::started_text(target))
            &&& course.np.child == Some(child)
            &&& playback_step(course.np, PlaybackView::Report) == replied::<C>(
                "▶ Now playing: "@ + stations[0].name + " — "@ + stations[0].url_resolved,
            )
        }),
{
    radio::law_uuids_accepted(uuid);
}

// ── what is listed, asked, replied and counted ───────────────────────────────

/// The server presents itself with what it is for, when to reach for it, its tools by
/// name and what playback needs.
pub proof fn law_instructions()
    ensures
        SERVER_NAME@ == "internet-radio-mcp"@,
        SERVER_INSTRUCTIONS@ == "Discover and play live internet radio on this machine. \
Reach for it whenever the user wants to listen to, find, or control a radio station - live music \
by genre (jazz, classical, reggae), news or talk radio, or a specific broadcaster. Typical flow: \
`radio_search` finds stations by name, genre, or tag via the public Radio Browser directory and \
returns a stream URL, then `radio_play` starts it, while `radio_stop` halts playback and \
`radio_now_playing` reports the current station. Playback runs a local `mpv` process, so audio \
comes out of the host machine's own speakers and mpv must be installed; station search needs no \
API key."@,
{
}

/// The tools are listed in this order, with these descriptions and with the parameters
/// that they take.
pub proof fn law_tools_are_described()
    ensures
        tool_catalog().len() == 4,
        tool_catalog()[0].name == "radio_search"@,
        tool_catalog()[0].description == "Find internet radio stations to listen to - search by station name, genre, or tag (e.g. jazz, news, classical) using the public Radio Browser directory. Returns matching stations, each with a stream URL, country, genre tags, bitrate, and popularity (vote count), best-voted first. Pass a returned stream URL to radio_play to start listening."@,
        tool_catalog()[0].input_schema == schema::search_parameters(),
        tool_catalog()[1].name == "radio_play"@,
        tool_catalog()[1].description == "Start playback of a radio station via mpv. Provide a direct stream URL (preferred) or a Radio Browser station UUID. Exactly one of 'url' or 'uuid' is required. Stops any currently-playing station first."@,
        tool_catalog()[1].input_schema == schema::play_parameters(),
        tool_catalog()[2].name == "radio_stop"@,
        tool_catalog()[2].description == "Stop the currently tracked radio station by terminating its mpv process. No-op if nothing is playing."@,
        tool_catalog()[2].input_schema == schema::no_parameters(),
        tool_catalog()[3].name == "radio_now_playing"@,
        tool_catalog()[3].description == "Return the name and stream URL of the currently-playing station, or a message indicating nothing is playing."@,
        tool_catalog()[3].input_schema == schema::no_parameters(),
{
}

/// The contents of a tool, of a reply and of a failure are their own fields.
pub proof fn law_contents_of_tools_and_replies(
    tool: ToolDef,
    content: Content,
    reply: ToolReply,
    error: CallError,
)
    ensures
        tool@.name == tool.name@,
        tool@.description == tool.description@,
        tool@.input_schema == tool.input_schema@,
        match content {
            Content::Text(t) => content@ == ContentView::Text(t@),
            Content::Json(value) => content@ == ContentView::Json(value@),
        },
        reply@.is_error == reply.is_error,
        reply@.content.len() == reply.content@.len(),
        forall|i: int|
            0 <= i < reply.content@.len() ==> #[trigger] reply@.content[i] == reply.content@[i]@,
        match error {
            CallError::InvalidParams(m) => error@ == CallErrorView::InvalidParams(m@),
            CallError::Tool(m) => error@ == CallErrorView::Tool(m@),
        },
{
}

/// The contents of what is counted, and of a step with it, are their own fields.
pub proof fn law_contents_of_progress<C>(
    increment: CounterIncrement,
    progress: Progress,
    playing: PlaybackProgress<C>,
)
    ensures
        increment@.counter == increment.counter@,
        increment@.labels.len() == increment.labels@.len(),
        forall|i: int|
            0 <= i < increment.labels@.len() ==> #[trigger] increment@.labels[i] == (
                increment.labels@[i].0@,
                increment.labels@[i].1@,
            ),
        counted_view(None) is None,
        counted_view(Some(increment)) == Some(increment@),
        progress@.step == progress.step@,
        progress@.counted is Some <==> progress.counted is Some,
        progress.counted matches Some(c) ==> progress@.counted == Some(c@),
        playing@.step == playing.step@,
        playing@.counted is Some <==> playing.counted is Some,
        playing.counted matches Some(c) ==> playing@.counted == Some(c@),
{
}

/// A fault of the directory and one of the player are counted once each, under the tool
/// that was called and the reason, and nothing else is counted.
pub proof fn law_what_is_counted(
    tool: Seq<char>,
    message: Seq<char>,
    error: InternetRadioMcpErrorView,
)
    ensures
        failure_count(tool, InternetRadioMcpErrorView::Radio(RadioErrorView::ApiError(message)))
            == Some(
            CounterIncrementView {
                counter: "radio.upstream_failures"@,
                labels: seq![("tool"@, tool), ("reason"@, "directory"@)],
            },
        ),
        failure_count(tool, InternetRadioMcpErrorView::Radio(RadioErrorView::PlayerError(message)))
            == Some(
            CounterIncrementView {
                counter: "radio.upstream_failures"@,
                labels: seq![("tool"@, tool), ("reason"@, "player"@)],
            },
        ),
        failure_count(
            tool,
            InternetRadioMcpErrorView::Radio(RadioErrorView::NoStationsFound(message)),
        ) is None,
        !(error is Radio) ==> failure_count(tool, error) is None,
        failure_reason(error) is Some <==> failure_count(tool, error) is Some,
        failure_reason(error) matches Some(reason) ==> failure_count(
            tool,
            error,
        )->Some_0.labels[1] == ("reason"@, reason),
{
}

/// A call of a tool by its name is a call of that tool, with the members of its arguments.
pub proof fn law_tools_are_called_by_name(base: Seq<char>, args: Seq<(Seq<char>, JsonView)>)
    ensures
        first_step(base, "radio_search"@, JsonView::Object(args)) == search_step(base, args),
        first_step(base, "radio_play"@, JsonView::Object(args)) == play_step(base, args),
{
    lemma_tool_names_differ();
}

/// A search asks the directory for the query that was given: as a tag exactly where `by`
/// is the text `tag` or `genre`, as a name in every other case, and for as many results
/// as were asked for, between one and fifty, or ten.
pub proof fn law_search_asks_for_the_query_given(
    base: Seq<char>,
    args: Seq<(Seq<char>, JsonView)>,
    query: Seq<char>,
)
    requires
        json::text_member(args, "query"@) == Some(query),
    ensures
        ({
            let by = json::text_member(args, "by"@);
            let asked = json::unsigned_member(args, "limit"@);
            let limit: nat = match asked {
                None => 10,
                Some(n) => if n < 1 {
                    1
                } else if n > 50 {
                    50
                } else {
                    n as nat
                },
            };
            first_step(base, "radio_search"@, JsonView::Object(args)) matches StepView::Fetch {
                request,
                pending,
            } && {
                &&& request.url == base + "/stations/search"@
                &&& request.query.len() == 4
                &&& by == Some("tag"@) || by == Some("genre"@) ==> request.query[0] == (
                    "tag"@,
                    query,
                )
                &&& !(by == Some("tag"@) || by == Some("genre"@)) ==> request.query[0] == (
                    "name"@,
                    query,
                )
                &&& by == Some("name"@) || by is None ==> request.query[0] == ("name"@, query)
                &&& request.query[1] == ("limit"@, crate::text::decimal(limit))
                &&& request.query[2] == ("hidebroken"@, "true"@)
                &&& request.query[3] == ("order"@, "votes"@)
                &&& request.user_agent == "AdelieInternetRadioMcp/0.1 (contact: local)"@
                &&& pending == (PendingView::Search { query, limit })
            }
        }),
{
    arguments::law_search_is_by_tag_or_by_name(base, args, query);
}

/// A play by address plays the address that was given, under the name that was given or
/// as an unknown station, and looks nothing up.
pub proof fn law_play_by_address_plays_the_address_given(
    base: Seq<char>,
    args: Seq<(Seq<char>, JsonView)>,
    url: Seq<char>,
)
    requires
        json::text_member(args, "url"@) == Some(url),
        json::text_member(args, "uuid"@) is None,
    ensures
        first_step(base, "radio_play"@, JsonView::Object(args)) matches StepView::Playback(
            PlaybackView::Play(target),
        ) && {
            &&& target.url == url
            &&& json::text_member(args, "name"@) matches Some(name) ==> target.name == name
            &&& json::text_member(args, "name"@) is None ==> target.name == "Unknown station"@
            &&& target.uuid.len() == 0
        },
{
    lemma_tool_names_differ();
}

/// A play by UUID asks the directory for that very UUID, if it has the form of one, and
/// is otherwise told what is wrong with it.
pub proof fn law_play_by_uuid_asks_for_the_uuid_given(
    base: Seq<char>,
    args: Seq<(Seq<char>, JsonView)>,
    uuid: Seq<char>,
    i: int,
)
    requires
        json::text_member(args, "url"@) is None,
        json::text_member(args, "uuid"@) == Some(uuid),
    ensures
        ({
            let step = first_step(base, "radio_play"@, JsonView::Object(args));
            let length = vstd::utf8::encode_utf8(uuid).len();
            &&& radio::is_uuid(uuid) ==> (step matches StepView::Fetch { request, pending } && {
                &&& request.url == base + "/stations/byuuid/"@ + uuid
                &&& request.query.len() == 0
                &&& request.user_agent == "AdelieInternetRadioMcp/0.1 (contact: local)"@
                &&& pending == (PendingView::Lookup { uuid })
            })
            &&& length != 36 ==> step == StepView::<ToolReplyView, CallErrorView>::Finished(
                Err(
                    CallErrorView::InvalidParams(
                        "UUID must be 36 characters, got "@ + crate::text::decimal(length),
                    ),
                ),
            )
            &&& length == 36 && 0 <= i < uuid.len() && !('0' <= uuid[i] <= '9' || 'a' <= uuid[i]
                <= 'f' || 'A' <= uuid[i] <= 'F' || uuid[i] == '-') ==> step == StepView::<
                ToolReplyView,
                CallErrorView,
            >::Finished(
                Err(
                    CallErrorView::InvalidParams(
                        "UUID contains invalid characters (expected [0-9a-fA-F-]): "@ + uuid,
                    ),
                ),
            )
        }),
{
    lemma_tool_names_differ();
    radio::law_uuids_accepted(uuid);
    radio::law_faults_of_a_uuid(uuid, i);
}

/// A call that cannot be made is told why.
pub proof fn law_rejected_calls_are_told_why(
    base: Seq<char>,
    name: Seq<char>,
    arguments: JsonView,
    args: Seq<(Seq<char>, JsonView)>,
)
    ensures
        !(arguments is Object || arguments is Null) ==> first_step(base, name, arguments)
            == StepView::<ToolReplyView, CallErrorView>::Finished(
            Err(CallErrorView::InvalidParams("arguments must be an object"@)),
        ),
        json::text_member(args, "query"@) is None ==> first_step(
            base,
            "radio_search"@,
            JsonView::Object(args),
        ) == StepView::<ToolReplyView, CallErrorView>::Finished(
            Err(CallErrorView::InvalidParams("missing required parameter: query"@)),
        ),
        json::text_member(args, "url"@) is None && json::text_member(args, "uuid"@) is None
            ==> first_step(base, "radio_play"@, JsonView::Object(args)) == StepView::<
            ToolReplyView,
            CallErrorView,
        >::Finished(
            Err(
                CallErrorView::InvalidParams("provide either 'url' or 'uuid' to play a station"@),
            ),
        ),
        json::text_member(args, "url"@) is Some && json::text_member(args, "uuid"@) is Some
            ==> first_step(base, "radio_play"@, JsonView::Object(args)) == StepView::<
            ToolReplyView,
            CallErrorView,
        >::Finished(
            Err(CallErrorView::InvalidParams("exactly one of 'url' or 'uuid' is required"@)),
        ),
        name != "radio_search"@ && name != "radio_play"@ && name != "radio_stop"@ && name
            != "radio_now_playing"@ ==> first_step(base, name, JsonView::Object(args))
            == StepView::<ToolReplyView, CallErrorView>::Finished(
            Err(CallErrorView::Tool("unknown tool: "@ + name)),
        ),
{
    lemma_tool_names_differ();
}

/// The tools without parameters go straight to what is playing, whatever members their
/// arguments have.
pub proof fn law_stop_and_report_take_no_arguments(
    base: Seq<char>,
    args: Seq<(Seq<char>, JsonView)>,
)
    ensures
        first_step(base, "radio_stop"@, JsonView::Object(args)) == StepView::<
            ToolReplyView,
            CallErrorView,
        >::Playback(PlaybackView::Stop),
        first_step(base, "radio_stop"@, JsonView::Null) == StepView::<
            ToolReplyView,
            CallErrorView,
        >::Playback(PlaybackView::Stop),
        first_step(base, "radio_now_playing"@, JsonView::Object(args)) == StepView::<
            ToolReplyView,
            CallErrorView,
        >::Playback(PlaybackView::Report),
        first_step(base, "radio_now_playing"@, JsonView::Null) == StepView::<
            ToolReplyView,
            CallErrorView,
        >::Playback(PlaybackView::Report),
{
    lemma_tool_names_differ();
}

/// An answer of the directory with a status code from 200 to 299 is read on, for what
/// was asked. Any other, and none at all, ends the call with an error that tells the
/// code or the failure, and is counted as a fault of the directory.
pub proof fn law_answers_of_the_directory(pending: PendingView, code: u16, message: Seq<char>)
    ensures
        ({
            let tool = if pending is Search { "radio_search"@ } else { "radio_play"@ };
            let fault = Some(
                CounterIncrementView {
                    counter: "radio.upstream_failures"@,
                    labels: seq![("tool"@, tool), ("reason"@, "directory"@)],
                },
            );
            &&& 200 <= code <= 299 ==> responded(pending, Ok(code)) == (ProgressView {
                counted: None,
                step: StepView::ReadBody { pending },
            })
            &&& !(200 <= code <= 299) ==> responded(pending, Ok(code)) == (ProgressView {
                counted: fault,
                step: StepView::Finished(
                    Err(
                        CallErrorView::Tool(
                            "Radio error: "@ + ("Radio Browser API error: "@ + ("HTTP "@ + (
                            crate::text::decimal(code as nat) + " "@ + radio::reason_phrase(code))
                                + " from Radio Browser"@)),
                        ),
                    ),
                ),
            })
            &&& responded(pending, Err(message)) == (ProgressView {
                counted: fault,
                step: StepView::Finished(
                    Err(
                        CallErrorView::Tool(
                            "Radio error: "@ + ("Radio Browser API error: "@ + message),
                        ),
                    ),
                ),
            })
            &&& body_read(pending, Err(message)) == (ProgressView {
                counted: fault,
                step: StepView::Finished(
                    Err(
                        CallErrorView::Tool(
                            "Radio error: "@ + ("Radio Browser API error: "@ + message),
                        ),
                    ),
                ),
            })
        }),
{
}

/// A lookup that found stations plays the first of them, by its own address and name,
/// under the UUID that was asked for. One that found none says so.
pub proof fn law_lookup_plays_the_first_station(uuid: Seq<char>, stations: Seq<StationView>)
    ensures
        stations.len() > 0 ==> body_read(PendingView::Lookup { uuid }, Ok(stations)) == (
        ProgressView {
            counted: None,
            step: StepView::Playback(
                PlaybackView::Play(
                    StreamTargetView {
                        url: stations[0].url_resolved,
                        name: stations[0].name,
                        uuid,
                    },
                ),
            ),
        }),
        stations.len() == 0 ==> body_read(PendingView::Lookup { uuid }, Ok(stations)) == (
        ProgressView {
            counted: None,
            step: StepView::Finished(
                Err(CallErrorView::Tool("Station UUID not found: "@ + uuid)),
            ),
        }),
{
}

/// A search that found nothing says for which query.
pub proof fn law_empty_search_tells_the_query(query: Seq<char>, limit: nat)
    ensures
        body_read(PendingView::Search { query, limit }, Ok(Seq::empty())) == (ProgressView {
            counted: None,
            step: StepView::Finished(
                Err(
                    CallErrorView::Tool(
                        "Radio error: "@ + ("No stations found for query: "@ + query),
                    ),
                ),
            ),
        }),
{
}

/// Looking up each key of an item gives the station's own value: the same text, or the
/// same integer. The item holds nothing else.
pub proof fn law_item_has_the_stations_own_values(station: StationView)
    ensures
        station_item(station) matches JsonView::Object(item) && {
            &&& item.len() == 8
            &&& json::member(item, "uuid"@) == Some(JsonView::Text(station.uuid))
            &&& json::member(item, "name"@) == Some(JsonView::Text(station.name))
            &&& json::member(item, "url"@) == Some(JsonView::Text(station.url_resolved))
            &&& json::member(item, "country"@) == Some(JsonView::Text(station.country))
            &&& json::member(item, "tags"@) == Some(JsonView::Text(station.tags))
            &&& json::member(item, "bitrate_kbps"@) == Some(
                JsonView::Integer(station.bitrate as int),
            )
            &&& json::member(item, "codec"@) == Some(JsonView::Text(station.codec))
            &&& json::member(item, "votes"@) == Some(JsonView::Integer(station.votes as int))
        },
{
    reveal_strlit("uuid");
    reveal_strlit("name");
    reveal_strlit("url");
    reveal_strlit("country");
    reveal_strlit("tags");
    reveal_strlit("bitrate_kbps");
    reveal_strlit("codec");
    reveal_strlit("votes");
    assert("uuid"@.len() == 4 && "name"@.len() == 4 && "url"@.len() == 3 && "country"@.len() == 7
        && "tags"@.len() == 4 && "bitrate_kbps"@.len() == 12 && "codec"@.len() == 5
        && "votes"@.len() == 5);
    assert("uuid"@[0] == 'u' && "name"@[0] == 'n' && "tags"@[0] == 't');
    assert("codec"@[0] == 'c' && "votes"@[0] == 'v');
    let item = station_item(station)->Object_0;
    assert forall|i: int, j: int| 0 <= i < j < 8 implies (#[trigger] item[i]).0 != (
    #[trigger] item[j]).0 by {}
    json::law_first_member_is_found(item, "uuid"@, 0);
    json::law_first_member_is_found(item, "name"@, 1);
    json::law_first_member_is_found(item, "url"@, 2);
    json::law_first_member_is_found(item, "country"@, 3);
    json::law_first_member_is_found(item, "tags"@, 4);
    json::law_first_member_is_found(item, "bitrate_kbps"@, 5);
    json::law_first_member_is_found(item, "codec"@, 6);
    json::law_first_member_is_found(item, "votes"@, 7);
}

/// A search replies with one JSON array that has an item for each station that is shown.
/// Looking up each key of an item gives the own value of a station that was found: the
/// best of those that have no place before it.
pub proof fn law_search_shows_stations_as_they_are(
    query: Seq<char>,
    limit: nat,
    stations: Seq<StationView>,
    i: int,
    other: int,
)
    requires
        0 <= i < stations.len(),
        i < limit,
        0 <= other < stations.len(),
    ensures
        ({
            let progress = body_read(PendingView::Search { query, limit }, Ok(stations));
            let reply = progress.step->Finished_0->Ok_0;
            let items = reply.content[0]->Json_0->Array_0;
            let item = items[i]->Object_0;
            let order = ranking::best_first_order(ranking::votes_of(stations));
            let station = stations[order[i]];
            &&& progress.counted is None
            &&& progress.step is Finished && progress.step->Finished_0 is Ok
            &&& !reply.is_error
            &&& reply.content.len() == 1
            &&& reply.content[0] is Json && reply.content[0]->Json_0 is Array
            &&& limit < stations.len() ==> items.len() == limit
            &&& limit >= stations.len() ==> items.len() == stations.len()
            &&& items[i] is Object
            &&& json::member(item, "uuid"@) == Some(JsonView::Text(station.uuid))
            &&& json::member(item, "name"@) == Some(JsonView::Text(station.name))
            &&& json::member(item, "url"@) == Some(JsonView::Text(station.url_resolved))
            &&& json::member(item, "country"@) == Some(JsonView::Text(station.country))
            &&& json::member(item, "tags"@) == Some(JsonView::Text(station.tags))
            &&& json::member(item, "bitrate_kbps"@) == Some(
                JsonView::Integer(station.bitrate as int),
            )
            &&& json::member(item, "codec"@) == Some(JsonView::Text(station.codec))
            &&& json::member(item, "votes"@) == Some(JsonView::Integer(station.votes as int))
            &&& 0 <= order[i] < stations.len()
            &&& forall|k: int| 0 <= k < i ==> #[trigger] order[k] != order[i]
            &&& (forall|k: int| 0 <= k <= i ==> #[trigger] order[k] != other) ==> {
                ||| station.votes > stations[other].votes
                ||| station.votes == stations[other].votes && order[i] < other
            }
        }),
{
    ranking::law_each_place_goes_to_the_best_that_is_left(stations, limit, i, other);
    let order = ranking::best_first_order(ranking::votes_of(stations));
    law_item_has_the_stations_own_values(stations[order[i]]);
}

/// To play a stream, the service first stops the player that is tracked. Then, or where
/// there is none, it starts the player on the address that was asked for, or refuses that
/// address. Nothing is counted, and nothing counts as playing meanwhile.
pub proof fn law_service_starts_the_address_asked_for<C>(
    np: NowPlayingView<C>,
    target: StreamTargetView,
)
    ensures
        ({
            let first = playback_step(np, PlaybackView::Play(target));
            let start = playing(playback::start_step::<C>(target));
            &&& np.child matches Some(child) ==> first.step == (PlaybackStepView::<
                C,
                ToolReplyView,
                CallErrorView,
            >::StopPrior { child, target })
            &&& np.child is None ==> first == start
            &&& first.counted is None && start.counted is None
            &&& playback_state(np, PlaybackView::Play(target)).child is None
            &&& playback_state(np, PlaybackView::Play(target)).station is None
            &&& radio::is_stream_url(target.url) ==> (start.step matches PlaybackStepView::Spawn {
                command,
                target: same,
            } && {
                &&& command.program == "mpv"@
                &&& command.args.len() == 3
                &&& command.args[0] == "--no-video"@
                &&& command.args[1] == "--really-quiet"@
                &&& command.args[2] == target.url
                &&& command.stdin is Null && command.stdout is Null && command.stderr is Null
                &&& same == target
            })
            &&& !radio::is_stream_url(target.url) ==> start.step == PlaybackStepView::<
                C,
                ToolReplyView,
                CallErrorView,
            >::Finished(
                Err(
                    CallErrorView::Tool(
                        "Radio error: "@ + ("Player error: "@
                            + radio::stream_url_fault(target.url)->Radio_0->PlayerError_0),
                    ),
                ),
            )
        }),
{
}

/// Whenever the player starts, the service replies with the name and the address of the
/// stream, whether that was given by its address or found by its UUID. A player that does
/// not start is told of and counted.
pub proof fn law_service_replies_with_name_and_address<C>(
    target: StreamTargetView,
    child: C,
    message: Seq<char>,
)
    ensures
        spawned_step(target, Ok::<C, Seq<char>>(child)) == (PlaybackProgressView::<C> {
            counted: None,
            step: PlaybackStepView::Finished(
                Ok(
                    ToolReplyView {
                        content: seq![
                            ContentView::Text(
                                "▶ Now playing: "@ + target.name + " ("@ + target.url + ")"@,
                            ),
                        ],
                        is_error: false,
                    },
                ),
            ),
        }),
        spawned_step(target, Err::<C, Seq<char>>(message)) == (PlaybackProgressView::<C> {
            counted: Some(
                CounterIncrementView {
                    counter: "radio.upstream_failures"@,
                    labels: seq![("tool"@, "radio_play"@), ("reason"@, "player"@)],
                },
            ),
            step: PlaybackStepView::Finished(
                Err(
                    CallErrorView::Tool(
                        "Radio error: "@ + ("Player error: "@ + ("Failed to spawn mpv: "@
                            + message)),
                    ),
                ),
            ),
        }),
{
}

/// The service names the station that is recorded, whichever it is, and gives its
/// address. It says that nothing is playing exactly where none is recorded. What is
/// playing stays as it is.
pub proof fn law_service_reports_the_recorded_station<C>(np: NowPlayingView<C>)
    ensures
        playback_step(np, PlaybackView::Report) == (PlaybackProgressView::<C> {
            counted: None,
            step: PlaybackStepView::Finished(
                Ok(
                    ToolReplyView {
                        content: seq![
                            ContentView::Text(
                                if np.station is Some {
                                    "▶ Now playing: "@ + np.station->Some_0.name + " — "@
                                        + np.station->Some_0.url_resolved
                                } else {
                                    "⏹ Nothing is currently playing."@
                                },
                            ),
                        ],
                        is_error: false,
                    },
                ),
            ),
        }),
        playback_state(np, PlaybackView::Report).child == np.child,
        playback_state(np, PlaybackView::Report).station == np.station,
        playback_step(np, PlaybackView::Report).step->Finished_0->Ok_0.content[0]
            == ContentView::Text("⏹ Nothing is currently playing."@) <==> np.station is None,
{
    if np.station is Some {
        reveal_strlit("▶ Now playing: ");
        reveal_strlit("⏹ Nothing is currently playing.");
        let named = "▶ Now playing: "@ + np.station->Some_0.name + " — "@
            + np.station->Some_0.url_resolved;
        assert(named[0] == '▶');
        assert("⏹ Nothing is currently playing."@[0] == '⏹');
    }
}

/// To stop, the service stops the player that is tracked, and says that playback is
/// stopped where there is none. The station stays until the player is stopped.
pub proof fn law_service_stops_what_is_tracked<C>(np: NowPlayingView<C>)
    ensures
        np.child matches Some(child) ==> playback_step(np, PlaybackView::Stop) == (
        PlaybackProgressView::<C> {
            counted: None,
            step: PlaybackStepView::StopTracked { child },
        }),
        np.child is None ==> playback_step(np, PlaybackView::Stop) == (PlaybackProgressView::<C> {
            counted: None,
            step: PlaybackStepView::Finished(
                Ok(
                    ToolReplyView {
                        content: seq![ContentView::Text("⏹ Playback stopped."@)],
                        is_error: false,
                    },
                ),
            ),
        }),
        playback_state(np, PlaybackView::Stop).child is None,
        np.child is Some ==> playback_state(np, PlaybackView::Stop).station == np.station,
        np.child is None ==> playback_state(np, PlaybackView::Stop).station is None,
        text_reply(playback::stopped_text()) == (ToolReplyView {
            content: seq![ContentView::Text("⏹ Playback stopped."@)],
            is_error: false,
        }),
{
}

/// A reply has one piece of content, as it was given, and is no error.
pub proof fn law_reply_is_what_was_given(content: Seq<char>, value: JsonView)
    ensures
        text_reply(content) == (ToolReplyView {
            content: seq![ContentView::Text(content)],
            is_error: false,
        }),
        json_reply(value) == (ToolReplyView {
            content: seq![ContentView::Json(value)],
            is_error: false,
        }),
{
}

/// The item of a list at each position is that of the station at the same position.
pub proof fn law_items_keep_the_order(stations: Seq<StationView>, i: int)
    requires
        0 <= i < stations.len(),
    ensures
        station_items(stations) is Array,
        station_items(stations)->Array_0.len() == stations.len(),
        station_items(stations)->Array_0[i] == station_item(stations[i]),
{
}

} // verus!
