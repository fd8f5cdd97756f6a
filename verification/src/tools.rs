//! A registry of the radio tools that replies with plain JSON and the crate's own
//! errors.
use vstd::prelude::*;

use crate::arguments;
use crate::arguments::{play_arguments, search_arguments, WantedStream, WantedStreamView};
use crate::call::{
    Pending, PendingView, Playback, PlaybackStep, PlaybackStepView, PlaybackView, Step, StepView,
};
use crate::error::{
    InternetRadioMcpError, InternetRadioMcpErrorView, McpError, McpErrorView, RadioErrorView,
    Result,
};
use crate::json;
use crate::json::{array, entry, object, text, Json, JsonView};
use crate::models;
use crate::models::{Station, StationView};
use crate::operations::radio;
use crate::playback;
use crate::playback::{
    start_play, NowPlaying, NowPlayingView, PlayStep, PlayStepView, StreamTarget, StreamTargetView,
};
use crate::ranking;
use crate::schema;
use crate::service;
use crate::service::show_stations;
use crate::text::{join, same_text};

verus! {

/// A JSON reply, and whether the list of tools has changed with it.
pub type Reply = (Json, bool);

/// The contents of a [`Reply`].
pub type ReplyView = (JsonView, bool);

// ── replies and descriptions ─────────────────────────────────────────────────

/// A reply of one piece of content.
pub open spec fn content_reply(
    kind: Seq<char>,
    key: Seq<char>,
    value: JsonView,
) -> JsonView {
    JsonView::Object(
        seq![
            (
                "content"@,
                JsonView::Array(
                    seq![JsonView::Object(seq![("type"@, JsonView::Text(kind)), (key, value)])],
                ),
            ),
        ],
    )
}

/// A reply of one text.
pub open spec fn text_content(content: Seq<char>) -> ReplyView {
    (content_reply("text"@, "text"@, JsonView::Text(content)), false)
}

/// A reply of one JSON value.
pub open spec fn json_content(value: JsonView) -> ReplyView {
    (content_reply("json"@, "value"@, value), false)
}

/// A reply of one piece of content.
fn reply_with(kind: &str, key: &str, value: Json) -> (reply: Json)
    ensures
        reply@ == content_reply(kind@, key@, value@),
{
    let ghost view = value@;
    let piece: Vec<(String, Json)> = vec![entry("type", text(kind)), entry(key, value)];
    assert(json::member_views(piece@) =~= seq![("type"@, JsonView::Text(kind@)), (key@, view)]);
    let pieces: Vec<Json> = vec![object(piece)];
    assert(json::item_views(pieces@) =~= seq![
        JsonView::Object(seq![("type"@, JsonView::Text(kind@)), (key@, view)]),
    ]);
    let members: Vec<(String, Json)> = vec![entry("content", array(pieces))];
    assert(json::member_views(members@) =~= content_reply(kind@, key@, view)->Object_0);
    object(members)
}

/// A tool as the registry lists it.
pub open spec fn tool_schema(
    name: Seq<char>,
    description: Seq<char>,
    input_schema: JsonView,
) -> JsonView {
    JsonView::Object(
        seq![
            ("name"@, JsonView::Text(name)),
            ("description"@, JsonView::Text(description)),
            ("inputSchema"@, input_schema),
        ],
    )
}

/// The description of `radio_search`.
pub open spec fn search_schema() -> JsonView {
    tool_schema(
        "radio_search"@,
        "Search for internet radio stations via the Radio Browser API. Returns a list of stations with name, stream URL, country, genre tags, bitrate, and vote count."@,
        schema::search_parameters(),
    )
}

/// The description of `radio_play`.
pub open spec fn play_schema() -> JsonView {
    tool_schema(
        "radio_play"@,
        "Start playback of a radio station via mpv. Provide a direct stream URL (preferred) or a Radio Browser station UUID. Exactly one of 'url' or 'uuid' is required. Stops any currently-playing station first."@,
        schema::play_parameters(),
    )
}

/// The description of `radio_stop`.
pub open spec fn stop_schema() -> JsonView {
    tool_schema(
        "radio_stop"@,
        "Stop the currently tracked radio station by terminating its mpv process. No-op if nothing is playing."@,
        schema::no_parameters(),
    )
}

/// The description of `radio_now_playing`.
pub open spec fn now_playing_schema() -> JsonView {
    tool_schema(
        "radio_now_playing"@,
        "Return the name and stream URL of the currently-playing station, or a message indicating nothing is playing."@,
        schema::no_parameters(),
    )
}

/// Describe a tool.
fn describe(name: &str, description: &str, input_schema: Json) -> (tool: Json)
    ensures
        tool@ == tool_schema(name@, description@, input_schema@),
{
    let ghost view = input_schema@;
    let members: Vec<(String, Json)> = vec![
        entry("name", text(name)),
        entry("description", text(description)),
        entry("inputSchema", input_schema),
    ];
    assert(json::member_views(members@) =~= tool_schema(name@, description@, view)->Object_0);
    object(members)
}

/// Describe `radio_search`.
pub fn radio_search_schema() -> (tool: Json)
    ensures
        tool@ == search_schema(),
{
    describe(
        "radio_search",
        "Search for internet radio stations via the Radio Browser API. Returns a list of stations with name, stream URL, country, genre tags, bitrate, and vote count.",
        schema::search_input_schema(),
    )
}

/// Describe `radio_play`.
pub fn radio_play_schema() -> (tool: Json)
    ensures
        tool@ == play_schema(),
{
    describe(
        "radio_play",
        "Start playback of a radio station via mpv. Provide a direct stream URL (preferred) or a Radio Browser station UUID. Exactly one of 'url' or 'uuid' is required. Stops any currently-playing station first.",
        schema::play_input_schema(),
    )
}

/// Describe `radio_stop`.
pub fn radio_stop_schema() -> (tool: Json)
    ensures
        tool@ == stop_schema(),
{
    describe(
        "radio_stop",
        "Stop the currently tracked radio station by terminating its mpv process. No-op if nothing is playing.",
        schema::empty_input_schema(),
    )
}

/// Describe `radio_now_playing`.
pub fn radio_now_playing_schema() -> (tool: Json)
    ensures
        tool@ == now_playing_schema(),
{
    describe(
        "radio_now_playing",
        "Return the name and stream URL of the currently-playing station, or a message indicating nothing is playing.",
        schema::empty_input_schema(),
    )
}

// ── the course of a call ─────────────────────────────────────────────────────

/// The step of a call that has failed.
pub open spec fn failed(error: InternetRadioMcpErrorView) -> StepView<
    ReplyView,
    InternetRadioMcpErrorView,
> {
    StepView::Finished(Err(error))
}

/// The first step of `radio_search`.
pub open spec fn search_step(args: Seq<(Seq<char>, JsonView)>) -> StepView<
    ReplyView,
    InternetRadioMcpErrorView,
> {
    match json::text_member(args, "query"@) {
        Some(query) => StepView::Fetch {
            request: arguments::wanted_search(radio::RADIO_BROWSER_BASE@, args, query),
            pending: PendingView::Search {
                query,
                limit: arguments::search_limit(json::unsigned_member(args, "limit"@)) as nat,
            },
        },
        None => failed(radio::invalid_parameters("Missing required parameter: query"@)),
    }
}

/// The first step of `radio_play`.
pub open spec fn play_step(args: Seq<(Seq<char>, JsonView)>) -> StepView<
    ReplyView,
    InternetRadioMcpErrorView,
> {
    match arguments::wanted_stream(args) {
        WantedStreamView::Direct(target) => StepView::Playback(PlaybackView::Play(target)),
        WantedStreamView::Lookup(uuid) => match radio::uuid_fault(uuid) {
            Some(fault) => failed(radio::invalid_parameters(fault)),
            None => StepView::Fetch {
                request: radio::lookup_request(radio::RADIO_BROWSER_BASE@, uuid),
                pending: PendingView::Lookup { uuid },
            },
        },
        WantedStreamView::Missing => failed(
            radio::invalid_parameters("Provide either 'url' or 'uuid' to play a station"@),
        ),
        WantedStreamView::Both => failed(
            radio::invalid_parameters("Exactly one of 'url' or 'uuid' is required"@),
        ),
    }
}

/// The first step of a call.
pub open spec fn first_step(name: Seq<char>, arguments: JsonView) -> StepView<
    ReplyView,
    InternetRadioMcpErrorView,
> {
    match arguments::argument_members(arguments) {
        None => failed(radio::invalid_parameters("Arguments must be an object"@)),
        Some(args) => if name == "radio_search"@ {
            search_step(args)
        } else if name == "radio_play"@ {
            play_step(args)
        } else if name == "radio_stop"@ {
            StepView::Playback(PlaybackView::Stop)
        } else if name == "radio_now_playing"@ {
            StepView::Playback(PlaybackView::Report)
        } else {
            failed(InternetRadioMcpErrorView::Mcp(McpErrorView::ToolNotFound(name)))
        },
    }
}

/// A lookup ends with an error, or with no such station.
pub open spec fn lookup_failed(uuid: Seq<char>, error: InternetRadioMcpErrorView) -> StepView<
    ReplyView,
    InternetRadioMcpErrorView,
> {
    if radio::is_absence(error) {
        failed(radio::invalid_parameters("Station UUID not found: "@ + uuid))
    } else {
        failed(error)
    }
}

/// The step once the directory has answered with a status code, or could not be
/// reached.
pub open spec fn responded(
    pending: PendingView,
    sent: std::result::Result<u16, Seq<char>>,
) -> StepView<ReplyView, InternetRadioMcpErrorView> {
    match sent {
        Err(message) => failed(radio::api_error(message)),
        Ok(code) => match radio::status_fault(code) {
            Some(e) => failed(e),
            None => StepView::ReadBody { pending },
        },
    }
}

/// At most `limit` of the stations, in the order the directory lists them.
pub open spec fn first_listed(stations: Seq<StationView>, limit: nat) -> Seq<StationView> {
    stations.take(ranking::at_most(stations.len(), limit) as int)
}

/// The step once the body of the directory's answer was read, or could not be.
pub open spec fn body_read(
    pending: PendingView,
    body: std::result::Result<Seq<StationView>, Seq<char>>,
) -> StepView<ReplyView, InternetRadioMcpErrorView> {
    match pending {
        PendingView::Search { query, limit } => match radio::stations_in(body, query) {
            Ok(stations) => StepView::Finished(
                Ok(json_content(service::station_items(first_listed(stations, limit)))),
            ),
            Err(e) => failed(e),
        },
        PendingView::Lookup { uuid } => match radio::stations_in(body, uuid) {
            Ok(stations) => StepView::Playback(
                PlaybackView::Play(
                    StreamTargetView {
                        url: stations[0].url_resolved,
                        name: stations[0].name,
                        uuid,
                    },
                ),
            ),
            Err(e) => lookup_failed(uuid, e),
        },
    }
}

/// Registry for all radio tools, apart from what is playing.
#[derive(Debug)]
pub struct ToolRegistry {
}

impl Default for ToolRegistry {
    fn default() -> (registry: ToolRegistry)
        ensures
            registry == (ToolRegistry {  }),
    {
        ToolRegistry::new()
    }
}

impl ToolRegistry {
    /// Create a new registry.
    pub fn new() -> (registry: ToolRegistry)
        ensures
            registry == (ToolRegistry {  }),
    {
        ToolRegistry {  }
    }

    /// List available tools.
    pub fn list_tools(&self) -> (tools: Json)
        ensures
            tools@ == JsonView::Array(
                seq![search_schema(), play_schema(), stop_schema(), now_playing_schema()],
            ),
    {
        let items: Vec<Json> = vec![
            radio_search_schema(),
            radio_play_schema(),
            radio_stop_schema(),
            radio_now_playing_schema(),
        ];
        assert(json::item_views(items@) =~= seq![
            search_schema(),
            play_schema(),
            stop_schema(),
            now_playing_schema(),
        ]);
        array(items)
    }

    /// Execute a tool by name: the first step of the call.
    pub fn execute_tool(&self, name: &str, arguments: &Json) -> (step: Step<
        Reply,
        InternetRadioMcpError,
    >)
        ensures
            step@ == first_step(name@, arguments@),
    {
        // Nothing at all will do as arguments, for tools without parameters.
        let none: Vec<(String, Json)> = Vec::new();
        let args: &Vec<(String, Json)> = match arguments {
            Json::Object(members) => members,
            Json::Null => &none,
            _ => return Step::Finished(Err(invalid("Arguments must be an object".to_owned()))),
        };
        proof {
            assert(json::member_views(none@) =~= Seq::empty());
            if let Json::Object(members) = arguments {
                assert(arguments@->Object_0 =~= json::member_views(members@));
            }
            assert(arguments::argument_members(arguments@) == Some(json::member_views(args@)));
        }
        if same_text(name, "radio_search") {
            self.exec_radio_search(args)
        } else if same_text(name, "radio_play") {
            self.exec_radio_play(args)
        } else if same_text(name, "radio_stop") {
            Step::Playback(Playback::Stop)
        } else if same_text(name, "radio_now_playing") {
            Step::Playback(Playback::Report)
        } else {
            Step::Finished(
                Err(InternetRadioMcpError::from(McpError::ToolNotFound(name.to_owned()))),
            )
        }
    }

    /// Begin a search.
    pub fn exec_radio_search(&self, args: &Vec<(String, Json)>) -> (step: Step<
        Reply,
        InternetRadioMcpError,
    >)
        ensures
            step@ == search_step(json::member_views(args@)),
    {
        match search_arguments(radio::RADIO_BROWSER_BASE, args) {
            Some(search) => Step::Fetch {
                request: search.request,
                pending: Pending::Search { query: search.query, limit: search.limit },
            },
            None => Step::Finished(Err(invalid("Missing required parameter: query".to_owned()))),
        }
    }

    /// Begin to play, from an address or from a UUID that is looked up first.
    pub fn exec_radio_play(&self, args: &Vec<(String, Json)>) -> (step: Step<
        Reply,
        InternetRadioMcpError,
    >)
        ensures
            step@ == play_step(json::member_views(args@)),
    {
        match play_arguments(args) {
            WantedStream::Direct(target) => Step::Playback(Playback::Play(target)),
            WantedStream::Lookup(uuid) => {
                proof {
                    radio::law_uuids_accepted(uuid@);
                }
                match radio::station_by_uuid(radio::RADIO_BROWSER_BASE, &uuid) {
                    Ok(request) => Step::Fetch { request, pending: Pending::Lookup { uuid } },
                    Err(e) => Step::Finished(Err(e)),
                }
            },
            WantedStream::Missing => Step::Finished(
                Err(invalid("Provide either 'url' or 'uuid' to play a station".to_owned())),
            ),
            WantedStream::Both => Step::Finished(
                Err(invalid("Exactly one of 'url' or 'uuid' is required".to_owned())),
            ),
        }
    }

    /// The directory has answered with a status code, or could not be reached for
    /// the given reason.
    pub fn directory_responded(
        &self,
        pending: Pending,
        sent: std::result::Result<u16, String>,
    ) -> (step: Step<Reply, InternetRadioMcpError>)
        requires
            sent matches Ok(code) ==> 100 <= code <= 999,
        ensures
            step@ == responded(pending@, radio::told(sent)),
    {
        let code: u16 = match radio::request_sent(sent) {
            Ok(code) => code,
            Err(e) => return Step::Finished(Err(e)),
        };
        match radio::accept_status(code) {
            Ok(()) => Step::ReadBody { pending },
            Err(e) => Step::Finished(Err(e)),
        }
    }

    /// The body of the directory's answer was read, or could not be for the given
    /// reason.
    pub fn directory_body_read(
        &self,
        pending: Pending,
        body: std::result::Result<Vec<Station>, String>,
    ) -> (step: Step<Reply, InternetRadioMcpError>)
        ensures
            step@ == body_read(pending@, radio::body_view(body)),
    {
        match pending {
            Pending::Search { query, limit } => {
                match radio::parse_stations_response(body, &query) {
                    Ok(stations) => {
                        let mut listed: Vec<Station> = stations;
                        listed.truncate(limit as usize);
                        assert(models::station_views(listed@) =~= first_listed(
                            models::station_views(stations@),
                            limit as nat,
                        ));
                        Step::Finished(
                            Ok((reply_with("json", "value", show_stations(&listed)), false)),
                        )
                    },
                    Err(e) => Step::Finished(Err(e)),
                }
            },
            Pending::Lookup { uuid } => {
                let answer: Result<Vec<Station>> = radio::parse_stations_response(body, &uuid);
                end_lookup(uuid, answer)
            },
        }
    }
}

/// A rejected tool parameter.
fn invalid(message: String) -> (error: InternetRadioMcpError)
    ensures
        error@ == radio::invalid_parameters(message@),
{
    InternetRadioMcpError::from(McpError::InvalidToolParameters(message))
}

/// Go on with what a lookup found.
fn end_lookup(uuid: String, answer: Result<Vec<Station>>) -> (step: Step<
    Reply,
    InternetRadioMcpError,
>)
    requires
        answer matches Ok(list) ==> list@.len() > 0,
        answer matches Err(e) ==> e@ is Radio,
    ensures
        match answer {
            Ok(list) => step@ == StepView::<ReplyView, InternetRadioMcpErrorView>::Playback(
                PlaybackView::Play(
                    StreamTargetView {
                        url: list@[0].url_resolved@,
                        name: list@[0].name@,
                        uuid: uuid@,
                    },
                ),
            ),
            Err(e) => step@ == lookup_failed(uuid@, e@),
        },
{
    match radio::station_found(answer) {
        Ok(Some(station)) => Step::Playback(
            Playback::Play(StreamTarget { url: station.url_resolved, name: station.name, uuid }),
        ),
        Ok(None) => Step::Finished(Err(invalid(join("Station UUID not found: ", &uuid)))),
        Err(e) => Step::Finished(Err(e)),
    }
}

// ── the course of a call under the lock on what is playing ───────────────────

/// A step of playing a stream, as a step of the call.
pub open spec fn playing<C>(step: PlayStepView<C>) -> PlaybackStepView<
    C,
    ReplyView,
    InternetRadioMcpErrorView,
> {
    match step {
        PlayStepView::StopPrior { child, target } => PlaybackStepView::StopPrior { child, target },
        PlayStepView::Spawn { command, target } => PlaybackStepView::Spawn { command, target },
        PlayStepView::Failed(e) => PlaybackStepView::Finished(Err(e)),
    }
}

/// A call is over with a text.
pub open spec fn replied<C>(content: Seq<char>) -> PlaybackStepView<
    C,
    ReplyView,
    InternetRadioMcpErrorView,
> {
    PlaybackStepView::Finished(Ok(text_content(content)))
}

/// The first step under the lock.
pub open spec fn playback_step<C>(
    np: NowPlayingView<C>,
    playback: PlaybackView,
) -> PlaybackStepView<C, ReplyView, InternetRadioMcpErrorView> {
    match playback {
        PlaybackView::Play(target) => playing(playback::first_step(np, target)),
        PlaybackView::Stop => match np.child {
            Some(child) => PlaybackStepView::StopTracked { child },
            None => replied(playback::stopped_text()),
        },
        PlaybackView::Report => replied(playback::report_text(np.station)),
    }
}

/// The step once the player was started, or could not be.
pub open spec fn spawned_step<C>(
    target: StreamTargetView,
    outcome: std::result::Result<C, Seq<char>>,
) -> PlaybackStepView<C, ReplyView, InternetRadioMcpErrorView> {
    match playback::play_reply(target, outcome) {
        Ok(content) => replied(content),
        Err(e) => PlaybackStepView::Finished(Err(e)),
    }
}

impl ToolRegistry {
    /// Begin what a call does with what is playing.
    pub fn begin_playback<C>(&self, np: &mut NowPlaying<C>, playback: Playback) -> (step:
        PlaybackStep<C, Reply, InternetRadioMcpError>)
        ensures
            step@ == playback_step(old(np)@, playback@),
            final(np)@ == service::playback_state(old(np)@, playback@),
    {
        match playback {
            Playback::Play(target) => as_step(np.begin_play(target)),
            Playback::Stop => self.exec_radio_stop(np),
            Playback::Report => PlaybackStep::Finished(Ok(self.exec_radio_now_playing(np))),
        }
    }

    /// The player that was tracked so far is stopped, or could not be: go on to
    /// play either way.
    pub fn prior_stopped<C>(&self, target: StreamTarget) -> (step: PlaybackStep<
        C,
        Reply,
        InternetRadioMcpError,
    >)
        ensures
            step@ == playing(playback::start_step::<C>(target@)),
    {
        as_step(start_play(target))
    }

    /// The player was started, or could not be for the given reason.
    pub fn player_spawned<C>(
        &self,
        np: &mut NowPlaying<C>,
        target: StreamTarget,
        outcome: std::result::Result<C, String>,
    ) -> (step: PlaybackStep<C, Reply, InternetRadioMcpError>)
        ensures
            step@ == spawned_step(target@, radio::told(outcome)),
            final(np)@ == playback::after_spawn(old(np)@, target@, radio::told(outcome)),
    {
        PlaybackStep::Finished(in_reply(np.finish_play(target, outcome)))
    }

    /// Begin to stop playback. With nothing playing this is a no-op, not an error.
    pub fn exec_radio_stop<C>(&self, np: &mut NowPlaying<C>) -> (step: PlaybackStep<
        C,
        Reply,
        InternetRadioMcpError,
    >)
        ensures
            step@ == playback_step(old(np)@, PlaybackView::Stop),
            final(np)@ == service::playback_state(old(np)@, PlaybackView::Stop),
    {
        match np.begin_stop() {
            Some(child) => PlaybackStep::StopTracked { child },
            None => PlaybackStep::Finished(self.tracked_stopped(np, Ok(()))),
        }
    }

    /// The player that was tracked so far is stopped, or could not be.
    pub fn tracked_stopped<C>(&self, np: &mut NowPlaying<C>, stopped: Result<()>) -> (reply: Result<
        Reply,
    >)
        ensures
            match stopped {
                Ok(()) => final(np)@ == playback::after_stop(old(np)@) && (reply matches Ok(r)
                    && r@ == text_content(playback::stopped_text())),
                Err(e) => *final(np) == *old(np) && reply == Err::<Reply, InternetRadioMcpError>(e),
            },
    {
        in_reply(np.finish_stop(stopped))
    }

    /// Say what is playing.
    pub fn exec_radio_now_playing<C>(&self, np: &NowPlaying<C>) -> (reply: Reply)
        ensures
            reply@ == text_content(playback::report_text(np@.station)),
    {
        (reply_with("text", "text", Json::Text(np.report())), false)
    }
}

/// A text or an error as a reply.
fn in_reply(outcome: Result<String>) -> (reply: Result<Reply>)
    ensures
        match outcome {
            Ok(content) => reply matches Ok(r) && r@ == text_content(content@),
            Err(e) => reply == Err::<Reply, InternetRadioMcpError>(e),
        },
{
    match outcome {
        Ok(content) => Ok((reply_with("text", "text", Json::Text(content)), false)),
        Err(e) => Err(e),
    }
}

/// A step of playing a stream, as a step of the call.
fn as_step<C>(step: PlayStep<C>) -> (same: PlaybackStep<C, Reply, InternetRadioMcpError>)
    ensures
        same@ == playing(step@),
{
    match step {
        PlayStep::StopPrior { child, target } => PlaybackStep::StopPrior { child, target },
        PlayStep::Spawn { command, target } => PlaybackStep::Spawn { command, target },
        PlayStep::Failed(e) => PlaybackStep::Finished(Err(e)),
    }
}

// ── what the registry keeps to ───────────────────────────────────────────────

/// The registry and a service on the public directory ask the same of the
/// directory and of the player for the same call, and reject the same calls.
pub proof fn law_registry_asks_what_the_service_asks(name: Seq<char>, arguments: JsonView)
    ensures
        match service::first_step(radio::RADIO_BROWSER_BASE@, name, arguments) {
            StepView::Fetch { request, pending } => first_step(name, arguments) == (StepView::<
                ReplyView,
                InternetRadioMcpErrorView,
            >::Fetch { request, pending }),
            StepView::Playback(playback) => first_step(name, arguments) == StepView::<
                ReplyView,
                InternetRadioMcpErrorView,
            >::Playback(playback),
            StepView::Finished(Err(_)) => first_step(name, arguments) matches StepView::Finished(
                Err(InternetRadioMcpErrorView::Mcp(_)),
            ),
            _ => false,
        },
{
}

/// The registry and the service take the same steps with the player.
pub proof fn law_registry_plays_as_the_service_does<C>(
    np: NowPlayingView<C>,
    playback: PlaybackView,
)
    ensures
        match service::playback_step(np, playback).step {
            PlaybackStepView::StopPrior { child, target } => playback_step(np, playback) == (
            PlaybackStepView::<C, ReplyView, InternetRadioMcpErrorView>::StopPrior {
                child,
                target,
            }),
            PlaybackStepView::Spawn { command, target } => playback_step(np, playback) == (
            PlaybackStepView::<C, ReplyView, InternetRadioMcpErrorView>::Spawn {
                command,
                target,
            }),
            PlaybackStepView::StopTracked { child } => playback_step(np, playback) == (
            PlaybackStepView::<C, ReplyView, InternetRadioMcpErrorView>::StopTracked { child }),
            PlaybackStepView::Finished(reply) => playback_step(np, playback)
                matches PlaybackStepView::Finished(same) && (same is Ok <==> reply is Ok),
        },
{
}

/// A reply has one piece of content, which tells its kind and holds what was given. The
/// list of tools never changes with it.
pub proof fn law_registry_reply_is_what_was_given(content: Seq<char>, value: JsonView)
    ensures
        text_content(content) == (
            JsonView::Object(
                seq![
                    (
                        "content"@,
                        JsonView::Array(
                            seq![
                                JsonView::Object(
                                    seq![
                                        ("type"@, JsonView::Text("text"@)),
                                        ("text"@, JsonView::Text(content)),
                                    ],
                                ),
                            ],
                        ),
                    ),
                ],
            ),
            false,
        ),
        json_content(value) == (
            JsonView::Object(
                seq![
                    (
                        "content"@,
                        JsonView::Array(
                            seq![
                                JsonView::Object(
                                    seq![("type"@, JsonView::Text("json"@)), ("value"@, value)],
                                ),
                            ],
                        ),
                    ),
                ],
            ),
            false,
        ),
{
}

/// Each tool is listed with its name, its description and the parameters that it takes.
pub proof fn law_registry_tools_are_described()
    ensures
        search_schema() == JsonView::Object(
            seq![
                ("name"@, JsonView::Text("radio_search"@)),
                (
                    "description"@,
                    JsonView::Text(
                        "Search for internet radio stations via the Radio Browser API. Returns a list of stations with name, stream URL, country, genre tags, bitrate, and vote count."@,
                    ),
                ),
                ("inputSchema"@, schema::search_parameters()),
            ],
        ),
        play_schema() == JsonView::Object(
            seq![
                ("name"@, JsonView::Text("radio_play"@)),
                (
                    "description"@,
                    JsonView::Text(
                        "Start playback of a radio station via mpv. Provide a direct stream URL (preferred) or a Radio Browser station UUID. Exactly one of 'url' or 'uuid' is required. Stops any currently-playing station first."@,
                    ),
                ),
                ("inputSchema"@, schema::play_parameters()),
            ],
        ),
        stop_schema() == JsonView::Object(
            seq![
                ("name"@, JsonView::Text("radio_stop"@)),
                (
                    "description"@,
                    JsonView::Text(
                        "Stop the currently tracked radio station by terminating its mpv process. No-op if nothing is playing."@,
                    ),
                ),
                ("inputSchema"@, schema::no_parameters()),
            ],
        ),
        now_playing_schema() == JsonView::Object(
            seq![
                ("name"@, JsonView::Text("radio_now_playing"@)),
                (
                    "description"@,
                    JsonView::Text(
                        "Return the name and stream URL of the currently-playing station, or a message indicating nothing is playing."@,
                    ),
                ),
                ("inputSchema"@, schema::no_parameters()),
            ],
        ),
{
}

/// A call of a tool by its name is a call of that tool, with the members of its arguments.
pub proof fn law_registry_calls_tools_by_name(args: Seq<(Seq<char>, JsonView)>)
    ensures
        first_step("radio_search"@, JsonView::Object(args)) == search_step(args),
        first_step("radio_play"@, JsonView::Object(args)) == play_step(args),
{
    service::lemma_tool_names_differ();
}

/// A call of the registry that cannot be made is told why.
pub proof fn law_registry_tells_why_it_rejects(
    name: Seq<char>,
    arguments: JsonView,
    args: Seq<(Seq<char>, JsonView)>,
)
    ensures
        !(arguments is Object || arguments is Null) ==> first_step(name, arguments) == StepView::<
            ReplyView,
            InternetRadioMcpErrorView,
        >::Finished(
            Err(
                InternetRadioMcpErrorView::Mcp(
                    McpErrorView::InvalidToolParameters("Arguments must be an object"@),
                ),
            ),
        ),
        json::text_member(args, "query"@) is None ==> first_step(
            "radio_search"@,
            JsonView::Object(args),
        ) == StepView::<ReplyView, InternetRadioMcpErrorView>::Finished(
            Err(
                InternetRadioMcpErrorView::Mcp(
                    McpErrorView::InvalidToolParameters("Missing required parameter: query"@),
                ),
            ),
        ),
        json::text_member(args, "url"@) is None && json::text_member(args, "uuid"@) is None
            ==> first_step("radio_play"@, JsonView::Object(args)) == StepView::<
            ReplyView,
            InternetRadioMcpErrorView,
        >::Finished(
            Err(
                InternetRadioMcpErrorView::Mcp(
                    McpErrorView::InvalidToolParameters(
                        "Provide either 'url' or 'uuid' to play a station"@,
                    ),
                ),
            ),
        ),
        json::text_member(args, "url"@) is Some && json::text_member(args, "uuid"@) is Some
            ==> first_step("radio_play"@, JsonView::Object(args)) == StepView::<
            ReplyView,
            InternetRadioMcpErrorView,
        >::Finished(
            Err(
                InternetRadioMcpErrorView::Mcp(
                    McpErrorView::InvalidToolParameters(
                        "Exactly one of 'url' or 'uuid' is required"@,
                    ),
                ),
            ),
        ),
        name != "radio_search"@ && name != "radio_play"@ && name != "radio_stop"@ && name
            != "radio_now_playing"@ ==> first_step(name, JsonView::Object(args)) == StepView::<
            ReplyView,
            InternetRadioMcpErrorView,
        >::Finished(Err(InternetRadioMcpErrorView::Mcp(McpErrorView::ToolNotFound(name)))),
{
    service::lemma_tool_names_differ();
}

/// The registry asks the public directory for the query that was given: as a tag exactly
/// where `by` is the text `tag` or `genre`, and as a name in every other case.
pub proof fn law_registry_searches_for_the_query_given(
    args: Seq<(Seq<char>, JsonView)>,
    query: Seq<char>,
)
    requires
        json::text_member(args, "query"@) == Some(query),
    ensures
        ({
            let by = json::text_member(args, "by"@);
            let asked = json::unsigned_member(args, "limit"@);
            let limit: nat = match asked {
                None => 10,
                Some(n) => if n < 1 {
                    1
                } else if n > 50 {
                    50
                } else {
                    n as nat
                },
            };
            first_step("radio_search"@, JsonView::Object(args)) matches StepView::Fetch {
                request,
                pending,
            } && {
                &&& request.url == "https://de1.api.radio-browser.info/json"@
                    + "/stations/search"@
                &&& request.query.len() == 4
                &&& by == Some("tag"@) || by == Some("genre"@) ==> request.query[0] == (
                    "tag"@,
                    query,
                )
                &&& !(by == Some("tag"@) || by == Some("genre"@)) ==> request.query[0] == (
                    "name"@,
                    query,
                )
                &&& request.query[1] == ("limit"@, crate::text::decimal(limit))
                &&& request.query[2] == ("hidebroken"@, "true"@)
                &&& request.query[3] == ("order"@, "votes"@)
                &&& request.user_agent == "AdelieInternetRadioMcp/0.1 (contact: local)"@
                &&& pending == (PendingView::Search { query, limit })
            }
        }),
{
}

/// The registry plays the address that was given, under the name that was given or as an
/// unknown station, and looks nothing up for it.
pub proof fn law_registry_plays_the_address_given(
    args: Seq<(Seq<char>, JsonView)>,
    url: Seq<char>,
)
    requires
        json::text_member(args, "url"@) == Some(url),
        json::text_member(args, "uuid"@) is None,
    ensures
        first_step("radio_play"@, JsonView::Object(args)) matches StepView::Playback(
            PlaybackView::Play(target),
        ) && {
            &&& target.url == url
            &&& json::text_member(args, "name"@) matches Some(name) ==> target.name == name
            &&& json::text_member(args, "name"@) is None ==> target.name == "Unknown station"@
            &&& target.uuid.len() == 0
        },
{
    service::lemma_tool_names_differ();
}

/// The registry asks the public directory for the very UUID that was given, if it has the
/// form of one, and otherwise tells what is wrong with it.
pub proof fn law_registry_looks_up_the_uuid_given(
    args: Seq<(Seq<char>, JsonView)>,
    uuid: Seq<char>,
    i: int,
)
    requires
        json::text_member(args, "url"@) is None,
        json::text_member(args, "uuid"@) == Some(uuid),
    ensures
        ({
            let step = first_step("radio_play"@, JsonView::Object(args));
            let length = vstd::utf8::encode_utf8(uuid).len();
            &&& radio::is_uuid(uuid) ==> (step matches StepView::Fetch { request, pending } && {
                &&& request.url == "https://de1.api.radio-browser.info/json"@
                    + "/stations/byuuid/"@ + uuid
                &&& request.query.len() == 0
                &&& request.user_agent == "AdelieInternetRadioMcp/0.1 (contact: local)"@
                &&& pending == (PendingView::Lookup { uuid })
            })
            &&& length != 36 ==> step == StepView::<
                ReplyView,
                InternetRadioMcpErrorView,
            >::Finished(
                Err(
                    InternetRadioMcpErrorView::Mcp(
                        McpErrorView::InvalidToolParameters(
                            "UUID must be 36 characters, got "@ + crate::text::decimal(length),
                        ),
                    ),
                ),
            )
            &&& length == 36 && 0 <= i < uuid.len() && !('0' <= uuid[i] <= '9' || 'a' <= uuid[i]
                <= 'f' || 'A' <= uuid[i] <= 'F' || uuid[i] == '-') ==> step == StepView::<
                ReplyView,
                InternetRadioMcpErrorView,
            >::Finished(
                Err(
                    InternetRadioMcpErrorView::Mcp(
                        McpErrorView::InvalidToolParameters(
                            "UUID contains invalid characters (expected [0-9a-fA-F-]): "@ + uuid,
                        ),
                    ),
                ),
            )
        }),
{
    service::lemma_tool_names_differ();
    radio::law_uuids_accepted(uuid);
    radio::law_faults_of_a_uuid(uuid, i);
}

/// The tools without parameters go straight to what is playing.
pub proof fn law_registry_stops_and_reports_without_arguments(
    args: Seq<(Seq<char>, JsonView)>,
)
    ensures
        first_step("radio_stop"@, JsonView::Object(args)) == StepView::<
            ReplyView,
            InternetRadioMcpErrorView,
        >::Playback(PlaybackView::Stop),
        first_step("radio_stop"@, JsonView::Null) == StepView::<
            ReplyView,
            InternetRadioMcpErrorView,
        >::Playback(PlaybackView::Stop),
        first_step("radio_now_playing"@, JsonView::Object(args)) == StepView::<
            ReplyView,
            InternetRadioMcpErrorView,
        >::Playback(PlaybackView::Report),
        first_step("radio_now_playing"@, JsonView::Null) == StepView::<
            ReplyView,
            InternetRadioMcpErrorView,
        >::Playback(PlaybackView::Report),
{
    service::lemma_tool_names_differ();
}

/// An answer of the directory with a status code from 200 to 299 is read on, for what was
/// asked. Any other, and none at all, is a directory fault that tells the code or the
/// failure.
pub proof fn law_registry_takes_answers_of_the_directory(
    pending: PendingView,
    code: u16,
    message: Seq<char>,
)
    ensures
        200 <= code <= 299 ==> responded(pending, Ok(code)) == (StepView::<
            ReplyView,
            InternetRadioMcpErrorView,
        >::ReadBody { pending }),
        !(200 <= code <= 299) ==> responded(pending, Ok(code)) == StepView::<
            ReplyView,
            InternetRadioMcpErrorView,
        >::Finished(
            Err(
                InternetRadioMcpErrorView::Radio(
                    RadioErrorView::ApiError(
                        "HTTP "@ + (crate::text::decimal(code as nat) + " "@
                            + radio::reason_phrase(code)) + " from Radio Browser"@,
                    ),
                ),
            ),
        ),
        responded(pending, Err(message)) == StepView::<
            ReplyView,
            InternetRadioMcpErrorView,
        >::Finished(
            Err(InternetRadioMcpErrorView::Radio(RadioErrorView::ApiError(message))),
        ),
        body_read(pending, Err(message)) == StepView::<
            ReplyView,
            InternetRadioMcpErrorView,
        >::Finished(
            Err(InternetRadioMcpErrorView::Radio(RadioErrorView::ApiError(message))),
        ),
{
}

/// A lookup plays the first station that was found, by its own address and name, under
/// the UUID that was asked for. Where nothing was found, a lookup and a search say so, with
/// what was asked.
pub proof fn law_registry_plays_the_first_station(
    asked: Seq<char>,
    limit: nat,
    stations: Seq<StationView>,
)
    ensures
        stations.len() > 0 ==> body_read(PendingView::Lookup { uuid: asked }, Ok(stations))
            == StepView::<ReplyView, InternetRadioMcpErrorView>::Playback(
            PlaybackView::Play(
                StreamTargetView {
                    url: stations[0].url_resolved,
                    name: stations[0].name,
                    uuid: asked,
                },
            ),
        ),
        stations.len() == 0 ==> body_read(PendingView::Lookup { uuid: asked }, Ok(stations))
            == StepView::<ReplyView, InternetRadioMcpErrorView>::Finished(
            Err(
                InternetRadioMcpErrorView::Mcp(
                    McpErrorView::InvalidToolParameters("Station UUID not found: "@ + asked),
                ),
            ),
        ),
        stations.len() == 0 ==> body_read(PendingView::Search { query: asked, limit }, Ok(stations))
            == StepView::<ReplyView, InternetRadioMcpErrorView>::Finished(
            Err(InternetRadioMcpErrorView::Radio(RadioErrorView::NoStationsFound(asked))),
        ),
{
}

/// A search of the registry shows the stations in the order the directory lists them, up to
/// the limit. Looking up each key of an item gives the station's own value.
pub proof fn law_registry_shows_stations_as_they_are(
    query: Seq<char>,
    limit: nat,
    stations: Seq<StationView>,
    i: int,
)
    requires
        0 <= i < stations.len(),
        i < limit,
    ensures
        ({
            let step = body_read(PendingView::Search { query, limit }, Ok(stations));
            let reply = step->Finished_0->Ok_0;
            let pieces = reply.0->Object_0[0].1->Array_0;
            let piece = pieces[0]->Object_0;
            let items = piece[1].1->Array_0;
            let item = items[i]->Object_0;
            &&& step is Finished && step->Finished_0 is Ok
            &&& !reply.1
            &&& reply.0 is Object && reply.0->Object_0.len() == 1
            &&& reply.0->Object_0[0].0 == "content"@ && reply.0->Object_0[0].1 is Array
            &&& pieces.len() == 1 && pieces[0] is Object && piece.len() == 2
            &&& piece[0] == ("type"@, JsonView::Text("json"@))
            &&& piece[1].0 == "value"@ && piece[1].1 is Array
            &&& limit < stations.len() ==> items.len() == limit
            &&& limit >= stations.len() ==> items.len() == stations.len()
            &&& items[i] is Object
            &&& json::member(item, "uuid"@) == Some(JsonView::Text(stations[i].uuid))
            &&& json::member(item, "name"@) == Some(JsonView::Text(stations[i].name))
            &&& json::member(item, "url"@) == Some(JsonView::Text(stations[i].url_resolved))
            &&& json::member(item, "country"@) == Some(JsonView::Text(stations[i].country))
            &&& json::member(item, "tags"@) == Some(JsonView::Text(stations[i].tags))
            &&& json::member(item, "bitrate_kbps"@) == Some(
                JsonView::Integer(stations[i].bitrate as int),
            )
            &&& json::member(item, "codec"@) == Some(JsonView::Text(stations[i].codec))
            &&& json::member(item, "votes"@) == Some(JsonView::Integer(stations[i].votes as int))
        }),
{
    service::law_item_has_the_stations_own_values(stations[i]);
}

/// To play a stream, the registry first stops the player that is tracked. Then, or where
/// there is none, it starts the player on the address that was asked for, or refuses that
/// address.
pub proof fn law_registry_starts_the_address_asked_for<C>(
    np: NowPlayingView<C>,
    target: StreamTargetView,
)
    ensures
        ({
            let first = playback_step(np, PlaybackView::Play(target));
            let start = playing(playback::start_step::<C>(target));
            &&& np.child matches Some(child) ==> first == (PlaybackStepView::<
                C,
                ReplyView,
                InternetRadioMcpErrorView,
            >::StopPrior { child, target })
            &&& np.child is None ==> first == start
            &&& radio::is_stream_url(target.url) ==> (start matches PlaybackStepView::Spawn {
                command,
                target: same,
            } && {
                &&& command.program == "mpv"@
                &&& command.args.len() == 3
                &&& command.args[0] == "--no-video"@
                &&& command.args[1] == "--really-quiet"@
                &&& command.args[2] == target.url
                &&& command.stdin is Null && command.stdout is Null && command.stderr is Null
                &&& same == target
            })
            &&& !radio::is_stream_url(target.url) ==> start == PlaybackStepView::<
                C,
                ReplyView,
                InternetRadioMcpErrorView,
            >::Finished(Err(radio::stream_url_fault(target.url)))
        }),
{
}

/// Whenever the player starts, the registry replies with the name and the address of the
/// stream. A player that does not start is a player error that says why.
pub proof fn law_registry_replies_with_name_and_address<C>(
    target: StreamTargetView,
    child: C,
    message: Seq<char>,
)
    ensures
        spawned_step(target, Ok::<C, Seq<char>>(child)) == PlaybackStepView::<
            C,
            ReplyView,
            InternetRadioMcpErrorView,
        >::Finished(
            Ok(
                (
                    JsonView::Object(
                        seq![
                            (
                                "content"@,
                                JsonView::Array(
                                    seq![
                                        JsonView::Object(
                                            seq![
                                                ("type"@, JsonView::Text("text"@)),
                                                (
                                                    "text"@,
                                                    JsonView::Text(
                                                        "▶ Now playing: "@ + target.name + " ("@
                                                            + target.url + ")"@,
                                                    ),
                                                ),
                                            ],
                                        ),
                                    ],
                                ),
                            ),
                        ],
                    ),
                    false,
                ),
            ),
        ),
        spawned_step(target, Err::<C, Seq<char>>(message)) == PlaybackStepView::<
            C,
            ReplyView,
            InternetRadioMcpErrorView,
        >::Finished(
            Err(
                InternetRadioMcpErrorView::Radio(
                    RadioErrorView::PlayerError("Failed to spawn mpv: "@ + message),
                ),
            ),
        ),
{
}

/// The registry names the station that is recorded, whichever it is, and gives its
/// address. It says that nothing is playing where none is recorded.
pub proof fn law_registry_reports_the_recorded_station<C>(np: NowPlayingView<C>)
    ensures
        playback_step(np, PlaybackView::Report) == PlaybackStepView::<
            C,
            ReplyView,
            InternetRadioMcpErrorView,
        >::Finished(
            Ok(
                (
                    JsonView::Object(
                        seq![
                            (
                                "content"@,
                                JsonView::Array(
                                    seq![
                                        JsonView::Object(
                                            seq![
                                                ("type"@, JsonView::Text("text"@)),
                                                (
                                                    "text"@,
                                                    JsonView::Text(
                                                        if np.station is Some {
                                                            "▶ Now playing: "@
                                                                + np.station->Some_0.name + " — "@
                                                                + np.station->Some_0.url_resolved
                                                        } else {
                                                            "⏹ Nothing is currently playing."@
                                                        },
                                                    ),
                                                ),
                                            ],
                                        ),
                                    ],
                                ),
                            ),
                        ],
                    ),
                    false,
                ),
            ),
        ),
{
}

/// To stop, the registry stops the player that is tracked, and says that playback is
/// stopped where there is none.
pub proof fn law_registry_stops_what_is_tracked<C>(np: NowPlayingView<C>)
    ensures
        np.child matches Some(child) ==> playback_step(np, PlaybackView::Stop) == (
        PlaybackStepView::<C, ReplyView, InternetRadioMcpErrorView>::StopTracked { child }),
        np.child is None ==> playback_step(np, PlaybackView::Stop) == PlaybackStepView::<
            C,
            ReplyView,
            InternetRadioMcpErrorView,
        >::Finished(
            Ok(
                (
                    JsonView::Object(
                        seq![
                            (
                                "content"@,
                                JsonView::Array(
                                    seq![
                                        JsonView::Object(
                                            seq![
                                                ("type"@, JsonView::Text("text"@)),
                                                (
                                                    "text"@,
                                                    JsonView::Text("⏹ Playback stopped."@),
                                                ),
                                            ],
                                        ),
                                    ],
                                ),
                            ),
                        ],
                    ),
                    false,
                ),
            ),
        ),
{
}

} // verus!
