//! Domain errors.
//!
//! Transport and protocol errors belong to the host; only radio-specific and
//! parameter errors live here.
use vstd::prelude::*;

use crate::text::join;

verus! {

/// `serde_json::Error`, carried through as it is.
#[verifier::external_type_specification]
#[verifier::external_body]
pub struct ExJsonError(serde_json::Error);

/// `std::io::Error`, carried through as it is.
#[verifier::external_type_specification]
#[verifier::external_body]
pub struct ExIoError(std::io::Error);

/// Errors of radio operations (search, playback).
#[derive(Debug)]
pub enum RadioError {
    /// A Radio Browser API request failed.
    ApiError(String),
    /// The player process could not be managed.
    PlayerError(String),
    /// No stations matched the search.
    NoStationsFound(String),
}

/// The contents of a [`RadioError`].
pub enum RadioErrorView {
    ApiError(Seq<char>),
    PlayerError(Seq<char>),
    NoStationsFound(Seq<char>),
}

impl View for RadioError {
    type V = RadioErrorView;

    open spec fn view(&self) -> RadioErrorView {
        match *self {
            RadioError::ApiError(m) => RadioErrorView::ApiError(m@),
            RadioError::PlayerError(m) => RadioErrorView::PlayerError(m@),
            RadioError::NoStationsFound(q) => RadioErrorView::NoStationsFound(q@),
        }
    }
}

impl RadioErrorView {
    /// The message shown for the error.
    pub open spec fn text(self) -> Seq<char> {
        match self {
            RadioErrorView::ApiError(m) => "Radio Browser API error: "@ + m,
            RadioErrorView::PlayerError(m) => "Player error: "@ + m,
            RadioErrorView::NoStationsFound(q) => "No stations found for query: "@ + q,
        }
    }
}

impl RadioError {
    /// The message shown for the error.
    pub fn to_string(&self) -> (text: String)
        ensures
            text@ == self@.text(),
    {
        match self {
            RadioError::ApiError(m) => join("Radio Browser API error: ", m),
            RadioError::PlayerError(m) => join("Player error: ", m),
            RadioError::NoStationsFound(q) => join("No stations found for query: ", q),
        }
    }
}

/// Errors of tool parameter validation.
#[derive(Debug)]
pub enum McpError {
    /// The requested tool name does not exist.
    ToolNotFound(String),
    /// Tool parameters were missing or invalid.
    InvalidToolParameters(String),
}

/// The contents of an [`McpError`].
pub enum McpErrorView {
    ToolNotFound(Seq<char>),
    InvalidToolParameters(Seq<char>),
}

impl View for McpError {
    type V = McpErrorView;

    open spec fn view(&self) -> McpErrorView {
        match *self {
            McpError::ToolNotFound(name) => McpErrorView::ToolNotFound(name@),
            McpError::InvalidToolParameters(m) => McpErrorView::InvalidToolParameters(m@),
        }
    }
}

impl McpErrorView {
    /// The message shown for the error.
    pub open spec fn text(self) -> Seq<char> {
        match self {
            McpErrorView::ToolNotFound(name) => "Tool not found: "@ + name,
            McpErrorView::InvalidToolParameters(m) => "Invalid tool parameters: "@ + m,
        }
    }
}

impl McpError {
    /// The message shown for the error.
    pub fn to_string(&self) -> (text: String)
        ensures
            text@ == self@.text(),
    {
        match self {
            McpError::ToolNotFound(name) => join("Tool not found: ", name),
            McpError::InvalidToolParameters(m) => join("Invalid tool parameters: ", m),
        }
    }
}

/// The top-level error of the crate.
#[derive(Debug)]
pub enum InternetRadioMcpError {
    /// Tool parameter and validation errors.
    Mcp(McpError),
    /// Radio operation errors.
    Radio(RadioError),
    /// JSON serialization and deserialization errors.
    Json(serde_json::Error),
    /// Underlying I/O errors.
    Io(std::io::Error),
}

/// The contents of an [`InternetRadioMcpError`].
pub enum InternetRadioMcpErrorView {
    Mcp(McpErrorView),
    Radio(RadioErrorView),
    Json(serde_json::Error),
    Io(std::io::Error),
}

impl View for InternetRadioMcpError {
    type V = InternetRadioMcpErrorView;

    open spec fn view(&self) -> InternetRadioMcpErrorView {
        match *self {
            InternetRadioMcpError::Mcp(e) => InternetRadioMcpErrorView::Mcp(e@),
            InternetRadioMcpError::Radio(e) => InternetRadioMcpErrorView::Radio(e@),
            InternetRadioMcpError::Json(e) => InternetRadioMcpErrorView::Json(e),
            InternetRadioMcpError::Io(e) => InternetRadioMcpErrorView::Io(e),
        }
    }
}

impl InternetRadioMcpErrorView {
    /// `text` is the message shown for the error: a prefix that says where the
    /// error comes from, and the message of the error within.
    pub open spec fn shows(self, text: Seq<char>) -> bool {
        match self {
            InternetRadioMcpErrorView::Mcp(e) => text == "MCP error: "@ + e.text(),
            InternetRadioMcpErrorView::Radio(e) => text == "Radio error: "@ + e.text(),
            InternetRadioMcpErrorView::Json(e) => exists|shown: String|
                #[trigger] vstd::string::to_string_from_display_ensures(&e, shown) && text == "JSON error: "@
                    + shown@,
            InternetRadioMcpErrorView::Io(e) => exists|shown: String|
                #[trigger] vstd::string::to_string_from_display_ensures(&e, shown) && text == "IO error: "@
                    + shown@,
        }
    }
}

impl InternetRadioMcpError {
    /// The message shown for the error.
    pub fn to_string(&self) -> (text: String)
        ensures
            self@.shows(text@),
    {
        match self {
            InternetRadioMcpError::Mcp(e) => join("MCP error: ", &e.to_string()),
            InternetRadioMcpError::Radio(e) => join("Radio error: ", &e.to_string()),
            InternetRadioMcpError::Json(e) => {
                let shown: String = e.to_string();
                let text: String = join("JSON error: ", &shown);
                assert(self@->Json_0 == *e);
                text
            },
            InternetRadioMcpError::Io(e) => {
                let shown: String = e.to_string();
                let text: String = join("IO error: ", &shown);
                assert(self@->Io_0 == *e);
                text
            },
        }
    }
}

impl From<McpError> for InternetRadioMcpError {
    fn from(e: McpError) -> (error: InternetRadioMcpError) {
        InternetRadioMcpError::Mcp(e)
    }
}

impl vstd::std_specs::convert::FromSpecImpl<McpError> for InternetRadioMcpError {
    open spec fn obeys_from_spec() -> bool {
        true
    }

    open spec fn from_spec(e: McpError) -> InternetRadioMcpError {
        InternetRadioMcpError::Mcp(e)
    }
}

impl From<RadioError> for InternetRadioMcpError {
    fn from(e: RadioError) -> (error: InternetRadioMcpError) {
        InternetRadioMcpError::Radio(e)
    }
}

impl vstd::std_specs::convert::FromSpecImpl<RadioError> for InternetRadioMcpError {
    open spec fn obeys_from_spec() -> bool {
        true
    }

    open spec fn from_spec(e: RadioError) -> InternetRadioMcpError {
        InternetRadioMcpError::Radio(e)
    }
}

impl From<serde_json::Error> for InternetRadioMcpError {
    fn from(e: serde_json::Error) -> (error: InternetRadioMcpError) {
        InternetRadioMcpError::Json(e)
    }
}

impl vstd::std_specs::convert::FromSpecImpl<serde_json::Error> for InternetRadioMcpError {
    open spec fn obeys_from_spec() -> bool {
        true
    }

    open spec fn from_spec(e: serde_json::Error) -> InternetRadioMcpError {
        InternetRadioMcpError::Json(e)
    }
}

impl From<std::io::Error> for InternetRadioMcpError {
    fn from(e: std::io::Error) -> (error: InternetRadioMcpError) {
        InternetRadioMcpError::Io(e)
    }
}

impl vstd::std_specs::convert::FromSpecImpl<std::io::Error> for InternetRadioMcpError {
    open spec fn obeys_from_spec() -> bool {
        true
    }

    open spec fn from_spec(e: std::io::Error) -> InternetRadioMcpError {
        InternetRadioMcpError::Io(e)
    }
}

/// Convenience result alias for crate APIs.
pub type Result<T> = std::result::Result<T, InternetRadioMcpError>;

// ── what the errors keep to ──────────────────────────────────────────────────

/// The contents of an error are its kind and what it holds.
pub proof fn law_contents_are_kind_and_message(
    radio: RadioError,
    mcp: McpError,
    error: InternetRadioMcpError,
)
    ensures
        match radio {
            RadioError::ApiError(m) => radio@ == RadioErrorView::ApiError(m@),
            RadioError::PlayerError(m) => radio@ == RadioErrorView::PlayerError(m@),
            RadioError::NoStationsFound(q) => radio@ == RadioErrorView::NoStationsFound(q@),
        },
        match mcp {
            McpError::ToolNotFound(name) => mcp@ == McpErrorView::ToolNotFound(name@),
            McpError::InvalidToolParameters(m) => mcp@ == McpErrorView::InvalidToolParameters(m@),
        },
        match error {
            InternetRadioMcpError::Mcp(e) => error@ == InternetRadioMcpErrorView::Mcp(e@),
            InternetRadioMcpError::Radio(e) => error@ == InternetRadioMcpErrorView::Radio(e@),
            InternetRadioMcpError::Json(e) => error@ == InternetRadioMcpErrorView::Json(e),
            InternetRadioMcpError::Io(e) => error@ == InternetRadioMcpErrorView::Io(e),
        },
{
}

/// An error that holds a message shows the whole of it, behind words that say what
/// kind of error it is, and shows nothing else.
pub proof fn law_errors_show_their_message(message: Seq<char>, shown: Seq<char>)
    ensures
        RadioErrorView::ApiError(message).text() == "Radio Browser API error: "@ + message,
        RadioErrorView::PlayerError(message).text() == "Player error: "@ + message,
        RadioErrorView::NoStationsFound(message).text() == "No stations found for query: "@
            + message,
        McpErrorView::ToolNotFound(message).text() == "Tool not found: "@ + message,
        McpErrorView::InvalidToolParameters(message).text() == "Invalid tool parameters: "@
            + message,
        InternetRadioMcpErrorView::Radio(RadioErrorView::ApiError(message)).shows(shown)
            <==> shown == "Radio error: "@ + ("Radio Browser API error: "@ + message),
        InternetRadioMcpErrorView::Radio(RadioErrorView::PlayerError(message)).shows(shown)
            <==> shown == "Radio error: "@ + ("Player error: "@ + message),
        InternetRadioMcpErrorView::Radio(RadioErrorView::NoStationsFound(message)).shows(shown)
            <==> shown == "Radio error: "@ + ("No stations found for query: "@ + message),
        InternetRadioMcpErrorView::Mcp(McpErrorView::ToolNotFound(message)).shows(shown)
            <==> shown == "MCP error: "@ + ("Tool not found: "@ + message),
        InternetRadioMcpErrorView::Mcp(McpErrorView::InvalidToolParameters(message)).shows(shown)
            <==> shown == "MCP error: "@ + ("Invalid tool parameters: "@ + message),
{
}

/// An error from outside shows what it shows by itself, behind words that say where it
/// comes from, and shows nothing else.
pub proof fn law_outside_errors_show_through(
    json: serde_json::Error,
    io: std::io::Error,
    own: String,
    shown: Seq<char>,
)
    ensures
        vstd::string::to_string_from_display_ensures(&json, own)
            ==> InternetRadioMcpErrorView::Json(json).shows("JSON error: "@ + own@),
        vstd::string::to_string_from_display_ensures(&io, own)
            ==> InternetRadioMcpErrorView::Io(io).shows("IO error: "@ + own@),
        InternetRadioMcpErrorView::Json(json).shows(shown) ==> exists|text: String|
            #[trigger] vstd::string::to_string_from_display_ensures(&json, text)
                && "JSON error: "@ + text@ == shown,
        InternetRadioMcpErrorView::Io(io).shows(shown) ==> exists|text: String|
            #[trigger] vstd::string::to_string_from_display_ensures(&io, text)
                && "IO error: "@ + text@ == shown,
{
    assert(InternetRadioMcpErrorView::Json(json)->Json_0 == json);
    assert(InternetRadioMcpErrorView::Io(io)->Io_0 == io);
    if InternetRadioMcpErrorView::Json(json).shows(shown) {
        let text = choose|text: String|
            #[trigger] vstd::string::to_string_from_display_ensures(&json, text) && shown
                == "JSON error: "@ + text@;
        assert(vstd::string::to_string_from_display_ensures(&json, text));
        assert("JSON error: "@ + text@ == shown);
    }
    if InternetRadioMcpErrorView::Io(io).shows(shown) {
        let text = choose|text: String|
            #[trigger] vstd::string::to_string_from_display_ensures(&io, text) && shown
                == "IO error: "@ + text@;
        assert(vstd::string::to_string_from_display_ensures(&io, text));
        assert("IO error: "@ + text@ == shown);
    }
}

} // verus!
