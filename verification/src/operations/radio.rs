//! Radio Browser requests and answers, and the commands that start and stop the
//! player.
//!
//! Nothing here reaches outward. A function that starts an exchange says what
//! is to be sent or run; a function that continues it takes what came back.
use vstd::prelude::*;

use crate::error::{
    InternetRadioMcpError, InternetRadioMcpErrorView, McpError, McpErrorView, RadioError,
    RadioErrorView, Result,
};
use crate::models;
use crate::models::{Station, StationView};
use crate::text;
use crate::text::{characters, decimal_text, join, starts_with_ignoring_case, text_before};

verus! {

/// Where the Radio Browser directory answers.
pub const RADIO_BROWSER_BASE: &'static str = "https://de1.api.radio-browser.info/json";

/// How requests to the directory introduce themselves.
pub const USER_AGENT: &'static str = "AdelieInternetRadioMcp/0.1 (contact: local)";

// ── errors, by what they say ─────────────────────────────────────────────────

/// A directory fault with the given message.
pub open spec fn api_error(message: Seq<char>) -> InternetRadioMcpErrorView {
    InternetRadioMcpErrorView::Radio(RadioErrorView::ApiError(message))
}

/// A player fault with the given message.
pub open spec fn player_error(message: Seq<char>) -> InternetRadioMcpErrorView {
    InternetRadioMcpErrorView::Radio(RadioErrorView::PlayerError(message))
}

/// An empty search result.
pub open spec fn no_stations_found(query: Seq<char>) -> InternetRadioMcpErrorView {
    InternetRadioMcpErrorView::Radio(RadioErrorView::NoStationsFound(query))
}

/// A rejected tool parameter, with the given message.
pub open spec fn invalid_parameters(message: Seq<char>) -> InternetRadioMcpErrorView {
    InternetRadioMcpErrorView::Mcp(McpErrorView::InvalidToolParameters(message))
}

// ── requests to the directory ────────────────────────────────────────────────

/// A GET request to the directory.
#[derive(Debug)]
pub struct DirectoryRequest {
    /// The address, without a query.
    pub url: String,
    /// The query parameters, not yet encoded.
    pub query: Vec<(String, String)>,
    /// The `User-Agent` header.
    pub user_agent: String,
}

/// The contents of a [`DirectoryRequest`].
pub struct DirectoryRequestView {
    pub url: Seq<char>,
    pub query: Seq<(Seq<char>, Seq<char>)>,
    pub user_agent: Seq<char>,
}

impl View for DirectoryRequest {
    type V = DirectoryRequestView;

    open spec fn view(&self) -> DirectoryRequestView {
        DirectoryRequestView {
            url: self.url@,
            query: Seq::new(
                self.query@.len(),
                |i: int| (self.query@[i].0@, self.query@[i].1@),
            ),
            user_agent: self.user_agent@,
        }
    }
}

/// The request that searches the directory at `base` for `query` in `field`.
pub open spec fn search_request(
    base: Seq<char>,
    field: Seq<char>,
    query: Seq<char>,
    limit: nat,
) -> DirectoryRequestView {
    DirectoryRequestView {
        url: base + "/stations/search"@,
        query: seq![
            (field, query),
            ("limit"@, text::decimal(limit)),
            ("hidebroken"@, "true"@),
            ("order"@, "votes"@),
        ],
        user_agent: USER_AGENT@,
    }
}

/// The request that looks up one station in the directory at `base`.
pub open spec fn lookup_request(base: Seq<char>, uuid: Seq<char>) -> DirectoryRequestView {
    DirectoryRequestView {
        url: base + "/stations/byuuid/"@ + uuid,
        query: Seq::empty(),
        user_agent: USER_AGENT@,
    }
}

/// Search for stations by name.
pub fn search_by_name(base: &str, name: &str, limit: u32) -> (request: DirectoryRequest)
    ensures
        request@ == search_request(base@, "name"@, name@, limit as nat),
{
    search_stations(base, "name", name, limit)
}

/// Search for stations by tag or genre.
pub fn search_by_tag(base: &str, tag: &str, limit: u32) -> (request: DirectoryRequest)
    ensures
        request@ == search_request(base@, "tag"@, tag@, limit as nat),
{
    search_stations(base, "tag", tag, limit)
}

/// Search for stations by the given field.
fn search_stations(base: &str, field: &str, query: &str, limit: u32) -> (request: DirectoryRequest)
    ensures
        request@ == search_request(base@, field@, query@, limit as nat),
{
    let request: DirectoryRequest = DirectoryRequest {
        url: join(base, "/stations/search"),
        query: vec![
            (field.to_owned(), query.to_owned()),
            ("limit".to_owned(), decimal_text(limit as u64)),
            ("hidebroken".to_owned(), "true".to_owned()),
            ("order".to_owned(), "votes".to_owned()),
        ],
        user_agent: USER_AGENT.to_owned(),
    };
    assert(request@.query =~= search_request(base@, field@, query@, limit as nat).query);
    request
}

/// A character of a UUID: a hexadecimal digit or a hyphen.
pub open spec fn is_uuid_char(c: char) -> bool {
    ||| '0' <= c <= '9'
    ||| 'a' <= c <= 'f'
    ||| 'A' <= c <= 'F'
    ||| c == '-'
}

/// Every character is one of a UUID.
pub open spec fn all_uuid_chars(s: Seq<char>) -> bool {
    forall|i: int| 0 <= i < s.len() ==> is_uuid_char(#[trigger] s[i])
}

/// A text of the form `[0-9a-fA-F-]{36}`.
pub open spec fn is_uuid(s: Seq<char>) -> bool {
    s.len() == 36 && all_uuid_chars(s)
}

/// What is wrong with a text as a UUID, if anything. The length that is looked
/// at and reported is that of the UTF-8 encoding.
pub open spec fn uuid_fault(uuid: Seq<char>) -> Option<Seq<char>> {
    let length = vstd::utf8::encode_utf8(uuid).len();
    if length != 36 {
        Some("UUID must be 36 characters, got "@ + text::decimal(length))
    } else if !all_uuid_chars(uuid) {
        Some("UUID contains invalid characters (expected [0-9a-fA-F-]): "@ + uuid)
    } else {
        None
    }
}

/// The texts that pass as a UUID are exactly those of the form
/// `[0-9a-fA-F-]{36}`.
pub proof fn law_uuids_accepted(uuid: Seq<char>)
    ensures
        uuid_fault(uuid) is None <==> is_uuid(uuid),
{
    if all_uuid_chars(uuid) {
        assert(vstd::utf8::is_ascii_chars(uuid));
        vstd::utf8::is_ascii_chars_encode_utf8(uuid);
    }
}

/// Validate that a UUID matches the form `[0-9a-fA-F-]{36}`.
///
/// This keeps malformed input from altering the address that is asked.
pub fn validate_uuid(uuid: &str) -> (verdict: Result<()>)
    ensures
        verdict is Ok <==> is_uuid(uuid@),
        match verdict {
            Ok(()) => uuid_fault(uuid@) is None,
            Err(e) => uuid_fault(uuid@) is Some && e@ == invalid_parameters(
                uuid_fault(uuid@)->Some_0,
            ),
        },
{
    proof {
        law_uuids_accepted(uuid@);
    }
    let length: usize = uuid.as_bytes().len();
    if length != 36 {
        let message: String = join("UUID must be 36 characters, got ", &decimal_text(length as u64));
        return Err(InternetRadioMcpError::from(McpError::InvalidToolParameters(message)));
    }
    let chars: Vec<char> = characters(uuid);
    let mut i: usize = 0;
    while i < chars.len()
        invariant
            chars@ == uuid@,
            i <= chars.len(),
            vstd::utf8::encode_utf8(uuid@).len() == 36,
            forall|j: int| 0 <= j < i ==> is_uuid_char(#[trigger] uuid@[j]),
            uuid_fault(uuid@) is None <==> is_uuid(uuid@),
        decreases chars.len() - i,
    {
        let c: char = chars[i];
        let valid: bool = ('0' <= c && c <= '9') || ('a' <= c && c <= 'f') || ('A' <= c && c <= 'F')
            || c == '-';
        if !valid {
            assert(!is_uuid_char(uuid@[i as int]));
            let message: String = join(
                "UUID contains invalid characters (expected [0-9a-fA-F-]): ",
                uuid,
            );
            return Err(InternetRadioMcpError::from(McpError::InvalidToolParameters(message)));
        }
        i += 1;
    }
    Ok(())
}

/// Look up a single station by its UUID. The UUID is validated before it
/// becomes part of an address.
pub fn station_by_uuid(base: &str, uuid: &str) -> (request: Result<DirectoryRequest>)
    ensures
        request is Ok <==> is_uuid(uuid@),
        match request {
            Ok(r) => is_uuid(uuid@) && r@ == lookup_request(base@, uuid@),
            Err(e) => uuid_fault(uuid@) is Some && e@ == invalid_parameters(
                uuid_fault(uuid@)->Some_0,
            ),
        },
{
    match validate_uuid(uuid) {
        Ok(()) => {},
        Err(e) => return Err(e),
    }
    let prefix: String = join(base, "/stations/byuuid/");
    let request: DirectoryRequest = DirectoryRequest {
        url: join(&prefix, uuid),
        query: Vec::new(),
        user_agent: USER_AGENT.to_owned(),
    };
    assert(request@.query =~= lookup_request(base@, uuid@).query);
    Ok(request)
}

// ── answers of the directory ─────────────────────────────────────────────────

/// The reason that `http` writes after the number of a status code: the canonical
/// reason phrase, or a placeholder for a number that has none.
pub uninterp spec fn reason_phrase(code: u16) -> Seq<char>;

/// A status code as text: the number, a space and the reason.
pub open spec fn status_line(code: u16) -> Seq<char> {
    text::decimal(code as nat) + " "@ + reason_phrase(code)
}

/// `reqwest::StatusCode` as text: the `Display` of `StatusCode::from_u16(code)`,
/// which is the number in decimal, a space and a reason that the number alone
/// decides, named by [`reason_phrase`]. Only the numbers 100 to 999 are status
/// codes. What the reasons say is not stated.
#[verifier::external_body]
fn status_text(code: u16) -> (text: String)
    requires
        100 <= code <= 999,
    ensures
        text@ == text::decimal(code as nat) + " "@ + reason_phrase(code),
{
    reqwest::StatusCode::from_u16(code).unwrap().to_string()
}

/// `reqwest::StatusCode::is_success` of `StatusCode::from_u16(code)`: true of
/// the numbers 200 to 299. Only the numbers 100 to 999 are status codes.
#[verifier::external_body]
fn status_is_success(code: u16) -> (success: bool)
    requires
        100 <= code <= 999,
    ensures
        success == (200 <= code <= 299),
{
    reqwest::StatusCode::from_u16(code).unwrap().is_success()
}

/// The fault that a status code reports, if it is not one of success.
pub open spec fn status_fault(code: u16) -> Option<InternetRadioMcpErrorView> {
    if 200 <= code <= 299 {
        None
    } else {
        Some(api_error("HTTP "@ + status_line(code) + " from Radio Browser"@))
    }
}

/// The error for an answer with the given status line.
pub fn status_error(line: &str) -> (e: InternetRadioMcpError)
    ensures
        e@ == api_error("HTTP "@ + line@ + " from Radio Browser"@),
{
    let head: String = join("HTTP ", line);
    let message: String = join(&head, " from Radio Browser");
    InternetRadioMcpError::from(RadioError::ApiError(message))
}

/// What the directory's answer to a request means before its body is read: an
/// answer with a status code of success goes on.
pub fn accept_status(code: u16) -> (verdict: Result<()>)
    requires
        100 <= code <= 999,
    ensures
        match verdict {
            Ok(()) => status_fault(code) is None,
            Err(e) => status_fault(code) == Some(e@),
        },
{
    if status_is_success(code) {
        Ok(())
    } else {
        Err(status_error(&status_text(code)))
    }
}

/// What a request that could not be sent means, `sent` being the status code
/// that came back or the text of the failure.
pub fn request_sent(sent: std::result::Result<u16, String>) -> (status: Result<u16>)
    ensures
        match sent {
            Ok(code) => status == Ok::<u16, InternetRadioMcpError>(code),
            Err(message) => status matches Err(e) && e@ == api_error(message@),
        },
{
    match sent {
        Ok(code) => Ok(code),
        Err(message) => Err(InternetRadioMcpError::from(RadioError::ApiError(message))),
    }
}

/// The contents of a body that was read: the stations in it, or the text of the
/// failure to read or decode it.
pub open spec fn body_view(body: std::result::Result<Vec<Station>, String>) -> std::result::Result<
    Seq<StationView>,
    Seq<char>,
> {
    match body {
        Ok(stations) => Ok(models::station_views(stations@)),
        Err(message) => Err(message@),
    }
}

/// What a body means: its stations, of which there is at least one, or an error.
pub open spec fn stations_in(
    body: std::result::Result<Seq<StationView>, Seq<char>>,
    query: Seq<char>,
) -> std::result::Result<Seq<StationView>, InternetRadioMcpErrorView> {
    match body {
        Err(message) => Err(api_error(message)),
        Ok(stations) => if stations.len() == 0 {
            Err(no_stations_found(query))
        } else {
            Ok(stations)
        },
    }
}

/// The stations in the body of an answer to `query`.
pub fn parse_stations_response(
    body: std::result::Result<Vec<Station>, String>,
    query: &str,
) -> (stations: Result<Vec<Station>>)
    ensures
        match stations {
            Ok(list) => stations_in(body_view(body), query@) == Ok::<
                Seq<StationView>,
                InternetRadioMcpErrorView,
            >(models::station_views(list@)),
            Err(e) => stations_in(body_view(body), query@) == Err::<
                Seq<StationView>,
                InternetRadioMcpErrorView,
            >(e@),
        },
{
    match body {
        Err(message) => Err(InternetRadioMcpError::from(RadioError::ApiError(message))),
        Ok(stations) => {
            if stations.len() == 0 {
                Err(InternetRadioMcpError::from(RadioError::NoStationsFound(query.to_owned())))
            } else {
                Ok(stations)
            }
        },
    }
}

/// The error says that nothing matched: for a lookup, that there is no such station.
pub open spec fn is_absence(error: InternetRadioMcpErrorView) -> bool {
    error matches InternetRadioMcpErrorView::Radio(RadioErrorView::NoStationsFound(_))
}

/// The station that a UUID lookup found. "No stations found" is a valid "not
/// found" rather than an error here.
pub fn station_found(answer: Result<Vec<Station>>) -> (station: Result<Option<Station>>)
    ensures
        match answer {
            Ok(list) => if list@.len() == 0 {
                station matches Ok(None)
            } else {
                station matches Ok(Some(s)) && s == list@[0]
            },
            Err(e) => if is_absence(e@) {
                station matches Ok(None)
            } else {
                station matches Err(same) && same == e
            },
        },
{
    match answer {
        Ok(list) => {
            let mut list: Vec<Station> = list;
            if list.len() == 0 {
                Ok(None)
            } else {
                Ok(Some(list.swap_remove(0)))
            }
        },
        Err(InternetRadioMcpError::Radio(RadioError::NoStationsFound(_))) => Ok(None),
        Err(e) => Err(e),
    }
}

// ── playback ─────────────────────────────────────────────────────────────────

/// A stream address that may be played: one that starts with `http://` or
/// `https://`, in upper or lower case.
pub open spec fn is_stream_url(url: Seq<char>) -> bool {
    ||| text::has_prefix_ignoring_case(url, "http://"@)
    ||| text::has_prefix_ignoring_case(url, "https://"@)
}

/// The error for an address that may not be played. It shows the scheme only.
pub open spec fn stream_url_fault(url: Seq<char>) -> InternetRadioMcpErrorView {
    player_error(
        "only http:// and https:// stream URLs are allowed, got: "@ + text::before_first(
            url,
            "://"@,
        ),
    )
}

/// Validate that a stream URL uses HTTP or HTTPS.
///
/// Other schemes (`file://`, `ftp://`) are rejected so that no local file is
/// opened. Only ASCII letters have `h`, `t`, `p` or `s` as their lower-case
/// form, so ASCII case folding decides this for every text.
pub fn validate_stream_url(url: &str) -> (verdict: Result<()>)
    ensures
        match verdict {
            Ok(()) => is_stream_url(url@),
            Err(e) => !is_stream_url(url@) && e@ == stream_url_fault(url@),
        },
{
    if !starts_with_ignoring_case(url, "http://") && !starts_with_ignoring_case(url, "https://") {
        let scheme: String = text_before(url, "://");
        let message: String = join(
            "only http:// and https:// stream URLs are allowed, got: ",
            &scheme,
        );
        return Err(InternetRadioMcpError::from(RadioError::PlayerError(message)));
    }
    Ok(())
}

/// Where a program reads from, or writes to.
#[derive(Debug, Clone, Copy, PartialEq, Eq, Structural)]
pub enum StdioMode {
    /// The null device.
    Null,
    /// What the server itself uses.
    Inherit,
}

/// A program to run without waiting for it.
#[derive(Debug)]
pub struct PlayerCommand {
    pub program: String,
    pub args: Vec<String>,
    pub stdin: StdioMode,
    pub stdout: StdioMode,
    pub stderr: StdioMode,
}

/// The contents of a [`PlayerCommand`].
pub struct PlayerCommandView {
    pub program: Seq<char>,
    pub args: Seq<Seq<char>>,
    pub stdin: StdioMode,
    pub stdout: StdioMode,
    pub stderr: StdioMode,
}

impl View for PlayerCommand {
    type V = PlayerCommandView;

    open spec fn view(&self) -> PlayerCommandView {
        PlayerCommandView {
            program: self.program@,
            args: Seq::new(self.args@.len(), |i: int| self.args@[i]@),
            stdin: self.stdin,
            stdout: self.stdout,
            stderr: self.stderr,
        }
    }
}

/// The command that plays a stream address. The player reads nothing, and what it
/// writes is dropped: the server's own input and output carry its protocol.
pub open spec fn player_command(url: Seq<char>) -> PlayerCommandView {
    PlayerCommandView {
        program: "mpv"@,
        args: seq!["--no-video"@, "--really-quiet"@, url],
        stdin: StdioMode::Null,
        stdout: StdioMode::Null,
        stderr: StdioMode::Null,
    }
}

/// Play a station URL with mpv: the command to start, for an address that may be
/// played.
pub fn play_station(url: &str) -> (command: Result<PlayerCommand>)
    ensures
        match command {
            Ok(c) => is_stream_url(url@) && c@ == player_command(url@) && c.program@ == "mpv"@
                && c.args@.len() == 3 && c.args@[0]@ == "--no-video"@ && c.args@[1]@
                == "--really-quiet"@ && c.args@[2]@ == url@,
            Err(e) => !is_stream_url(url@) && e@ == stream_url_fault(url@),
        },
{
    match validate_stream_url(url) {
        Ok(()) => {},
        Err(e) => return Err(e),
    }
    let command: PlayerCommand = PlayerCommand {
        program: "mpv".to_owned(),
        args: vec!["--no-video".to_owned(), "--really-quiet".to_owned(), url.to_owned()],
        stdin: StdioMode::Null,
        stdout: StdioMode::Null,
        stderr: StdioMode::Null,
    };
    assert(command@.args =~= player_command(url@).args);
    Ok(command)
}

/// What came of starting the player: its handle, or the text of the failure.
pub fn player_spawned<C>(outcome: std::result::Result<C, String>) -> (child: Result<C>)
    ensures
        match outcome {
            Ok(c) => child == Ok::<C, InternetRadioMcpError>(c),
            Err(message) => child matches Err(e) && e@ == player_error(
                "Failed to spawn mpv: "@ + message@,
            ),
        },
{
    match outcome {
        Ok(c) => Ok(c),
        Err(message) => Err(
            InternetRadioMcpError::from(
                RadioError::PlayerError(join("Failed to spawn mpv: ", &message)),
            ),
        ),
    }
}

// ── stopping the player ──────────────────────────────────────────────────────

/// What to do next to stop the process with handle `C`.
#[derive(Debug)]
pub enum StopStep<C> {
    /// Ask, without waiting, whether the process has exited.
    TryWait(C),
    /// Send `SIGTERM` to the process.
    Terminate(C),
    /// Kill the process outright.
    Kill(C),
    /// Wait for the process to exit, so that it leaves no zombie. What comes of
    /// the wait does not matter.
    Reap(C),
    /// There is nothing more to do.
    Done(Result<()>),
}

/// The contents of a [`StopStep`].
pub enum StopStepView<C> {
    TryWait(C),
    Terminate(C),
    Kill(C),
    Reap(C),
    Done(std::result::Result<(), InternetRadioMcpErrorView>),
}

impl<C> View for StopStep<C> {
    type V = StopStepView<C>;

    open spec fn view(&self) -> StopStepView<C> {
        match *self {
            StopStep::TryWait(child) => StopStepView::TryWait(child),
            StopStep::Terminate(child) => StopStepView::Terminate(child),
            StopStep::Kill(child) => StopStepView::Kill(child),
            StopStep::Reap(child) => StopStepView::Reap(child),
            StopStep::Done(Ok(())) => StopStepView::Done(Ok(())),
            StopStep::Done(Err(e)) => StopStepView::Done(Err(e@)),
        }
    }
}

/// What came of sending a signal to a process.
#[derive(Debug)]
pub enum SignalOutcome {
    /// The signal was sent.
    Sent,
    /// There is no such process (`ESRCH`).
    NoSuchProcess,
    /// The signal could not be sent, for the given reason.
    Failed(String),
}

/// The contents of a [`SignalOutcome`].
pub enum SignalOutcomeView {
    Sent,
    NoSuchProcess,
    Failed(Seq<char>),
}

impl View for SignalOutcome {
    type V = SignalOutcomeView;

    open spec fn view(&self) -> SignalOutcomeView {
        match *self {
            SignalOutcome::Sent => SignalOutcomeView::Sent,
            SignalOutcome::NoSuchProcess => SignalOutcomeView::NoSuchProcess,
            SignalOutcome::Failed(message) => SignalOutcomeView::Failed(message@),
        }
    }
}

/// A result with the text of its failure.
pub open spec fn told<T>(outcome: std::result::Result<T, String>) -> std::result::Result<
    T,
    Seq<char>,
> {
    match outcome {
        Ok(value) => Ok(value),
        Err(message) => Err(message@),
    }
}

/// The step after the question whether the process has exited. One that has is
/// reaped by the question itself; one that runs is sent `SIGTERM`.
pub open spec fn after_try_wait<C>(
    child: C,
    exited: std::result::Result<bool, Seq<char>>,
) -> StopStepView<C> {
    match exited {
        Ok(true) => StopStepView::Done(Ok(())),
        Ok(false) => StopStepView::Terminate(child),
        Err(message) => StopStepView::Done(Err(player_error("try_wait failed: "@ + message))),
    }
}

/// The step after `SIGTERM`. A process that was gone by then raced with its own
/// exit, which is no error; it still has to be reaped.
pub open spec fn after_terminate<C>(child: C, outcome: SignalOutcomeView) -> StopStepView<C> {
    match outcome {
        SignalOutcomeView::Sent => StopStepView::Reap(child),
        SignalOutcomeView::NoSuchProcess => StopStepView::Reap(child),
        SignalOutcomeView::Failed(message) => StopStepView::Done(
            Err(player_error("SIGTERM failed: "@ + message)),
        ),
    }
}

/// The step after a process was killed outright.
pub open spec fn after_kill<C>(
    child: C,
    outcome: std::result::Result<(), Seq<char>>,
) -> StopStepView<C> {
    match outcome {
        Ok(()) => StopStepView::Reap(child),
        Err(message) => StopStepView::Done(Err(player_error("kill failed: "@ + message))),
    }
}

/// Stop a specific mpv process, represented by its handle: first see whether it
/// has exited already.
pub fn stop_child<C>(child: C) -> (step: StopStep<C>)
    ensures
        step@ == StopStepView::TryWait(child),
{
    StopStep::TryWait(child)
}

/// Go on once it is known whether the process has exited, or the text of why that
/// could not be found out.
pub fn stop_after_try_wait<C>(child: C, exited: std::result::Result<bool, String>) -> (step:
    StopStep<C>)
    ensures
        step@ == after_try_wait(child, told(exited)),
{
    match exited {
        Ok(true) => StopStep::Done(Ok(())),
        Ok(false) => StopStep::Terminate(child),
        Err(message) => StopStep::Done(
            Err(
                InternetRadioMcpError::from(
                    RadioError::PlayerError(join("try_wait failed: ", &message)),
                ),
            ),
        ),
    }
}

/// Go on once `SIGTERM` was sent.
pub fn stop_after_terminate<C>(child: C, outcome: SignalOutcome) -> (step: StopStep<C>)
    ensures
        step@ == after_terminate(child, outcome@),
{
    match outcome {
        SignalOutcome::Sent => StopStep::Reap(child),
        SignalOutcome::NoSuchProcess => StopStep::Reap(child),
        SignalOutcome::Failed(message) => StopStep::Done(
            Err(
                InternetRadioMcpError::from(
                    RadioError::PlayerError(join("SIGTERM failed: ", &message)),
                ),
            ),
        ),
    }
}

/// Stop a process on a host without signals: kill it outright.
pub fn kill_child<C>(child: C) -> (step: StopStep<C>)
    ensures
        step@ == StopStepView::Kill(child),
{
    StopStep::Kill(child)
}

/// Go on once a process was killed outright, or the text of why it could not be.
pub fn stop_after_kill<C>(child: C, outcome: std::result::Result<(), String>) -> (step: StopStep<C>)
    ensures
        step@ == after_kill(child, told(outcome)),
{
    match outcome {
        Ok(()) => StopStep::Reap(child),
        Err(message) => StopStep::Done(
            Err(
                InternetRadioMcpError::from(
                    RadioError::PlayerError(join("kill failed: ", &message)),
                ),
            ),
        ),
    }
}

/// The process was waited for, with whatever result: it is stopped.
pub fn stop_after_reap<C>() -> (step: StopStep<C>)
    ensures
        step@ == StopStepView::<C>::Done(Ok(())),
{
    StopStep::Done(Ok(()))
}

/// The steps that stop a process, in order, `exited` and `signalled` being what
/// comes of them.
pub open spec fn stop_steps<C>(
    child: C,
    exited: std::result::Result<bool, Seq<char>>,
    signalled: SignalOutcomeView,
) -> Seq<StopStepView<C>> {
    let second = after_try_wait(child, exited);
    let third = after_terminate(child, signalled);
    if second is Done {
        seq![StopStepView::TryWait(child), second]
    } else if third is Done {
        seq![StopStepView::TryWait(child), second, third]
    } else {
        seq![StopStepView::TryWait(child), second, third, StopStepView::Done(Ok(()))]
    }
}

/// A process that had exited already is sent no signal, and stopping it succeeds.
pub proof fn law_exited_process_is_not_signalled<C>(child: C, signalled: SignalOutcomeView)
    ensures
        stop_steps(child, Ok(true), signalled) == seq![
            StopStepView::TryWait(child),
            StopStepView::Done(Ok(())),
        ],
{
}

/// Stopping succeeds only for a process that had exited or was reaped, and it
/// fails only where the process could not be looked at or signalled. A process
/// that is gone when the signal arrives is no failure.
pub proof fn law_stopped_process_leaves_no_zombie<C>(
    child: C,
    exited: std::result::Result<bool, Seq<char>>,
    signalled: SignalOutcomeView,
)
    ensures
        ({
            let steps = stop_steps(child, exited, signalled);
            &&& steps.last() is Done
            &&& steps.last()->Done_0 is Ok ==> exited == Ok::<bool, Seq<char>>(true)
                || steps.contains(StopStepView::Reap(child))
            &&& steps.last()->Done_0 is Err <==> exited is Err || (exited == Ok::<bool, Seq<char>>(
                false,
            ) && signalled is Failed)
        }),
{
    let steps = stop_steps(child, exited, signalled);
    if exited == Ok::<bool, Seq<char>>(false) && !(signalled is Failed) {
        assert(steps[2] == StopStepView::Reap(child));
    }
}

/// Every step of stopping a process concerns that process and no other.
pub proof fn law_only_the_given_process_is_stopped<C>(
    child: C,
    exited: std::result::Result<bool, Seq<char>>,
    signalled: SignalOutcomeView,
    i: int,
)
    requires
        0 <= i < stop_steps(child, exited, signalled).len(),
    ensures
        match stop_steps(child, exited, signalled)[i] {
            StopStepView::TryWait(c) => c == child,
            StopStepView::Terminate(c) => c == child,
            StopStepView::Kill(c) => c == child,
            StopStepView::Reap(c) => c == child,
            StopStepView::Done(_) => true,
        },
{
}

// ── what is asked of the directory and what its answers mean ─────────────────

/// The contents of a request are its own fields, the parameters one by one, in order.
pub proof fn law_contents_of_a_request(request: DirectoryRequest)
    ensures
        request@.url == request.url@,
        request@.user_agent == request.user_agent@,
        request@.query.len() == request.query@.len(),
        forall|i: int|
            0 <= i < request.query@.len() ==> #[trigger] request@.query[i] == (
                request.query@[i].0@,
                request.query@[i].1@,
            ),
{
}

/// A search asks for the query in the given field, for as many results as given, for
/// none that are broken and for an order by votes. It says so in this order and asks
/// nothing else.
pub proof fn law_search_request_says_what_is_wanted(
    base: Seq<char>,
    field: Seq<char>,
    query: Seq<char>,
    limit: nat,
)
    ensures
        ({
            let request = search_request(base, field, query, limit);
            &&& request.url == base + "/stations/search"@
            &&& request.query.len() == 4
            &&& request.query[0] == (field, query)
            &&& request.query[1] == ("limit"@, text::decimal(limit))
            &&& request.query[2] == ("hidebroken"@, "true"@)
            &&& request.query[3] == ("order"@, "votes"@)
            &&& request.user_agent == "AdelieInternetRadioMcp/0.1 (contact: local)"@
        }),
{
}

/// A lookup asks the directory for the UUID that is wanted and for nothing else.
pub proof fn law_lookup_request_says_what_is_wanted(base: Seq<char>, uuid: Seq<char>)
    ensures
        lookup_request(base, uuid).url == base + "/stations/byuuid/"@ + uuid,
        lookup_request(base, uuid).query.len() == 0,
        lookup_request(base, uuid).user_agent == "AdelieInternetRadioMcp/0.1 (contact: local)"@,
{
}

/// A UUID is 36 characters, each of them `0` to `9`, `a` to `f`, `A` to `F` or a
/// hyphen.
pub proof fn law_form_of_a_uuid(uuid: Seq<char>)
    ensures
        is_uuid(uuid) <==> uuid.len() == 36 && forall|i: int|
            0 <= i < uuid.len() ==> ('0' <= #[trigger] uuid[i] <= '9' || 'a' <= uuid[i] <= 'f'
                || 'A' <= uuid[i] <= 'F' || uuid[i] == '-'),
{
    if forall|i: int|
        0 <= i < uuid.len() ==> ('0' <= #[trigger] uuid[i] <= '9' || 'a' <= uuid[i] <= 'f' || 'A'
            <= uuid[i] <= 'F' || uuid[i] == '-') {
        assert forall|i: int| 0 <= i < uuid.len() implies is_uuid_char(#[trigger] uuid[i]) by {}
    }
}

/// What is wrong with a text as a UUID: its length in bytes, which is told, or else a
/// character at some position, for which the whole text is told.
pub proof fn law_faults_of_a_uuid(uuid: Seq<char>, i: int)
    ensures
        vstd::utf8::encode_utf8(uuid).len() != 36 ==> uuid_fault(uuid) == Some(
            "UUID must be 36 characters, got "@ + text::decimal(
                vstd::utf8::encode_utf8(uuid).len(),
            ),
        ),
        vstd::utf8::encode_utf8(uuid).len() == 36 && 0 <= i < uuid.len() && !('0' <= uuid[i]
            <= '9' || 'a' <= uuid[i] <= 'f' || 'A' <= uuid[i] <= 'F' || uuid[i] == '-')
            ==> uuid_fault(uuid) == Some(
            "UUID contains invalid characters (expected [0-9a-fA-F-]): "@ + uuid,
        ),
        uuid_fault(uuid) is None <==> is_uuid(uuid),
{
    law_uuids_accepted(uuid);
}

/// The kinds of error that the operations report hold the message as it is.
pub proof fn law_kinds_of_error(message: Seq<char>)
    ensures
        api_error(message) == InternetRadioMcpErrorView::Radio(RadioErrorView::ApiError(message)),
        player_error(message) == InternetRadioMcpErrorView::Radio(
            RadioErrorView::PlayerError(message),
        ),
        no_stations_found(message) == InternetRadioMcpErrorView::Radio(
            RadioErrorView::NoStationsFound(message),
        ),
        invalid_parameters(message) == InternetRadioMcpErrorView::Mcp(
            McpErrorView::InvalidToolParameters(message),
        ),
        is_absence(no_stations_found(message)),
        !is_absence(api_error(message)),
        !is_absence(player_error(message)),
        !is_absence(invalid_parameters(message)),
{
}

/// An answer goes on exactly with a status code from 200 to 299. Any other is a
/// directory fault that tells the code and its reason.
pub proof fn law_only_success_goes_on(code: u16)
    ensures
        status_fault(code) is None <==> 200 <= code <= 299,
        !(200 <= code <= 299) ==> status_fault(code) == Some(
            InternetRadioMcpErrorView::Radio(
                RadioErrorView::ApiError(
                    "HTTP "@ + (text::decimal(code as nat) + " "@ + reason_phrase(code))
                        + " from Radio Browser"@,
                ),
            ),
        ),
{
}

/// The contents of an outcome are what it holds, a failure by its text.
pub proof fn law_contents_of_an_outcome<T>(
    outcome: std::result::Result<T, String>,
    body: std::result::Result<Vec<Station>, String>,
)
    ensures
        match outcome {
            Ok(value) => told(outcome) == Ok::<T, Seq<char>>(value),
            Err(message) => told(outcome) == Err::<T, Seq<char>>(message@),
        },
        match body {
            Ok(stations) => body_view(body) is Ok && body_view(body)->Ok_0.len()
                == stations@.len() && forall|i: int|
                0 <= i < stations@.len() ==> #[trigger] body_view(body)->Ok_0[i]
                    == stations@[i]@,
            Err(message) => body_view(body) == Err::<Seq<StationView>, Seq<char>>(message@),
        },
{
}

/// A body with stations means those stations, all of them and in order. An empty one
/// means that nothing was found for the query, and one that could not be read is a
/// directory fault.
pub proof fn law_body_means_its_stations(
    stations: Seq<StationView>,
    message: Seq<char>,
    query: Seq<char>,
)
    ensures
        stations.len() > 0 ==> stations_in(Ok(stations), query) == Ok::<
            Seq<StationView>,
            InternetRadioMcpErrorView,
        >(stations),
        stations.len() == 0 ==> stations_in(Ok(stations), query) == Err::<
            Seq<StationView>,
            InternetRadioMcpErrorView,
        >(InternetRadioMcpErrorView::Radio(RadioErrorView::NoStationsFound(query))),
        stations_in(Err(message), query) == Err::<Seq<StationView>, InternetRadioMcpErrorView>(
            InternetRadioMcpErrorView::Radio(RadioErrorView::ApiError(message)),
        ),
{
}

// ── what may be played and how ───────────────────────────────────────────────

/// An address may be played exactly where it starts with `http://` or `https://`, each
/// letter in either case.
pub proof fn law_form_of_a_stream_address(url: Seq<char>)
    ensures
        is_stream_url(url) <==> {
            &&& url.len() >= 7
            &&& url[0] == 'h' || url[0] == 'H'
            &&& url[1] == 't' || url[1] == 'T'
            &&& url[2] == 't' || url[2] == 'T'
            &&& url[3] == 'p' || url[3] == 'P'
            &&& {
                ||| url[4] == ':' && url[5] == '/' && url[6] == '/'
                ||| {
                    &&& url.len() >= 8
                    &&& url[4] == 's' || url[4] == 'S'
                    &&& url[5] == ':' && url[6] == '/' && url[7] == '/'
                }
            }
        },
{
    reveal_strlit("http://");
    reveal_strlit("https://");
    let plain = "http://"@;
    let secure = "https://"@;
    assert(plain.len() == 7 && secure.len() == 8);
    assert(plain[0] == 'h' && plain[1] == 't' && plain[2] == 't' && plain[3] == 'p' && plain[4]
        == ':' && plain[5] == '/' && plain[6] == '/');
    assert(secure[0] == 'h' && secure[1] == 't' && secure[2] == 't' && secure[3] == 'p'
        && secure[4] == 's' && secure[5] == ':' && secure[6] == '/' && secure[7] == '/');
    text::law_prefix_is_in_either_case(url, plain);
    text::law_prefix_is_in_either_case(url, secure);
}

/// The error for an address that may not be played tells its scheme, which is what
/// stands before the first `://`, and nothing behind it.
pub proof fn law_refusal_tells_the_scheme(scheme: Seq<char>, rest: Seq<char>)
    requires
        forall|i: int|
            0 <= i < scheme.len() ==> #[trigger] (scheme + "://"@ + rest).subrange(i, i + 3)
                != "://"@ || i + 3 > (scheme + "://"@ + rest).len(),
    ensures
        stream_url_fault(scheme + "://"@ + rest) == InternetRadioMcpErrorView::Radio(
            RadioErrorView::PlayerError(
                "only http:// and https:// stream URLs are allowed, got: "@ + scheme,
            ),
        ),
{
    reveal_strlit("://");
    assert("://"@.len() == 3);
    text::law_text_before_the_first_separator(scheme, "://"@, rest);
}

/// The error for an address without a scheme tells the whole of it.
pub proof fn law_refusal_tells_what_has_no_scheme(url: Seq<char>)
    requires
        forall|i: int| 0 <= i <= url.len() - 3 ==> #[trigger] url.subrange(i, i + 3) != "://"@,
    ensures
        stream_url_fault(url) == InternetRadioMcpErrorView::Radio(
            RadioErrorView::PlayerError(
                "only http:// and https:// stream URLs are allowed, got: "@ + url,
            ),
        ),
{
    reveal_strlit("://");
    assert("://"@.len() == 3);
    text::law_text_without_a_separator(url, "://"@);
}

/// The contents of a command are its own fields, the arguments one by one, in order.
pub proof fn law_contents_of_a_command(command: PlayerCommand)
    ensures
        command@.program == command.program@,
        command@.args.len() == command.args@.len(),
        forall|i: int|
            0 <= i < command.args@.len() ==> #[trigger] command@.args[i] == command.args@[i]@,
        command@.stdin == command.stdin,
        command@.stdout == command.stdout,
        command@.stderr == command.stderr,
{
}

/// The player is told to show no video and to be quiet, and is given the address that
/// was asked for, character for character, and nothing else. It is cut off from the
/// server's own input and output.
pub proof fn law_player_is_given_the_address(url: Seq<char>)
    ensures
        ({
            let command = player_command(url);
            &&& command.program == "mpv"@
            &&& command.args.len() == 3
            &&& command.args[0] == "--no-video"@
            &&& command.args[1] == "--really-quiet"@
            &&& command.args[2] == url
            &&& command.stdin is Null && command.stdout is Null && command.stderr is Null
        }),
{
}

/// Each address has a command of its own: what is played tells which was asked for.
pub proof fn law_commands_tell_addresses_apart(one: Seq<char>, other: Seq<char>)
    requires
        player_command(one) == player_command(other),
    ensures
        one == other,
{
    assert(player_command(one).args[2] == player_command(other).args[2]);
}

// ── how a player is stopped ──────────────────────────────────────────────────

/// The contents of a step that stops a process, and of what came of a signal, are
/// their kind and what they hold.
pub proof fn law_contents_of_a_stop_step<C>(step: StopStep<C>, outcome: SignalOutcome)
    ensures
        match step {
            StopStep::TryWait(child) => step@ == StopStepView::TryWait(child),
            StopStep::Terminate(child) => step@ == StopStepView::Terminate(child),
            StopStep::Kill(child) => step@ == StopStepView::Kill(child),
            StopStep::Reap(child) => step@ == StopStepView::Reap(child),
            StopStep::Done(Ok(())) => step@ == StopStepView::<C>::Done(Ok(())),
            StopStep::Done(Err(e)) => step@ == StopStepView::<C>::Done(Err(e@)),
        },
        match outcome {
            SignalOutcome::Sent => outcome@ == SignalOutcomeView::Sent,
            SignalOutcome::NoSuchProcess => outcome@ == SignalOutcomeView::NoSuchProcess,
            SignalOutcome::Failed(m) => outcome@ == SignalOutcomeView::Failed(m@),
        },
{
}

/// A process that has exited is stopped; one that runs is sent `SIGTERM` and then
/// waited for, also where it is gone when the signal arrives; one that is killed
/// outright is waited for. Whatever fails ends the stop with a player error that tells
/// what failed and why.
pub proof fn law_course_of_a_stop<C>(child: C, message: Seq<char>)
    ensures
        after_try_wait(child, Ok(true)) == StopStepView::<C>::Done(Ok(())),
        after_try_wait(child, Ok(false)) == StopStepView::Terminate(child),
        after_terminate(child, SignalOutcomeView::Sent) == StopStepView::Reap(child),
        after_terminate(child, SignalOutcomeView::NoSuchProcess) == StopStepView::Reap(child),
        after_kill(child, Ok(())) == StopStepView::Reap(child),
        after_try_wait(child, Err(message)) == StopStepView::<C>::Done(
            Err(
                InternetRadioMcpErrorView::Radio(
                    RadioErrorView::PlayerError("try_wait failed: "@ + message),
                ),
            ),
        ),
        after_terminate(child, SignalOutcomeView::Failed(message)) == StopStepView::<C>::Done(
            Err(
                InternetRadioMcpErrorView::Radio(
                    RadioErrorView::PlayerError("SIGTERM failed: "@ + message),
                ),
            ),
        ),
        after_kill(child, Err(message)) == StopStepView::<C>::Done(
            Err(
                InternetRadioMcpErrorView::Radio(
                    RadioErrorView::PlayerError("kill failed: "@ + message),
                ),
            ),
        ),
{
}

} // verus!
