//! What the tools are called with.
use vstd::prelude::*;

use crate::json;
use crate::json::{get_text, get_unsigned, Json, JsonView};
use crate::operations::radio;
use crate::operations::radio::{DirectoryRequest, DirectoryRequestView};
use crate::playback::{StreamTarget, StreamTargetView};
use crate::text::same_text;

verus! {

/// The members of the arguments of a call: none where there are no arguments.
/// Only an object or nothing will do.
pub open spec fn argument_members(arguments: JsonView) -> Option<Seq<(Seq<char>, JsonView)>> {
    match arguments {
        JsonView::Object(members) => Some(members),
        JsonView::Null => Some(Seq::empty()),
        _ => None,
    }
}

// ── searching ────────────────────────────────────────────────────────────────

/// How many results are asked for where nothing is said of it.
pub const DEFAULT_LIMIT: u64 = 10;

/// How many results are asked for at least.
pub const MIN_LIMIT: u64 = 1;

/// How many results are asked for at most.
pub const MAX_LIMIT: u64 = 50;

/// The field that is searched: `genre` is an alias for `tag`, and everything
/// else means the name.
pub open spec fn search_field(by: Option<Seq<char>>) -> Seq<char> {
    if by == Some("tag"@) || by == Some("genre"@) {
        "tag"@
    } else {
        "name"@
    }
}

/// How many results are asked for: what is said, brought between the least and the
/// most.
pub open spec fn search_limit(limit: Option<int>) -> int {
    match limit {
        Some(n) => if n < MIN_LIMIT {
            MIN_LIMIT as int
        } else if n > MAX_LIMIT {
            MAX_LIMIT as int
        } else {
            n
        },
        None => DEFAULT_LIMIT as int,
    }
}

/// The search that the arguments ask for.
pub open spec fn wanted_search(
    base: Seq<char>,
    args: Seq<(Seq<char>, JsonView)>,
    query: Seq<char>,
) -> DirectoryRequestView {
    radio::search_request(
        base,
        search_field(json::text_member(args, "by"@)),
        query,
        search_limit(json::unsigned_member(args, "limit"@)) as nat,
    )
}

/// A search that was asked for.
#[derive(Debug)]
pub struct WantedSearch {
    pub request: DirectoryRequest,
    pub query: String,
    /// How many results are shown at most.
    pub limit: u32,
}

/// The search that the arguments ask for, if they say what to search for.
pub fn search_arguments(base: &str, args: &Vec<(String, Json)>) -> (search: Option<WantedSearch>)
    ensures
        match search {
            Some(s) => json::text_member(json::member_views(args@), "query"@) == Some(s.query@)
                && s.request@ == wanted_search(base@, json::member_views(args@), s.query@)
                && s.limit == search_limit(
                json::unsigned_member(json::member_views(args@), "limit"@),
            ),
            None => json::text_member(json::member_views(args@), "query"@) is None,
        },
{
    let query: &str = match get_text(args, "query") {
        Some(query) => query,
        None => return None,
    };
    let by: &str = match get_text(args, "by") {
        Some(by) => by,
        None => "name",
    };
    let asked: u64 = match get_unsigned(args, "limit") {
        Some(n) => n,
        None => DEFAULT_LIMIT,
    };
    let limit: u32 = if asked < MIN_LIMIT {
        MIN_LIMIT as u32
    } else if asked > MAX_LIMIT {
        MAX_LIMIT as u32
    } else {
        asked as u32
    };
    let by_tag: bool = same_text(by, "tag") || same_text(by, "genre");
    proof {
        reveal_strlit("name");
        reveal_strlit("tag");
        reveal_strlit("genre");
        assert("name"@.len() == 4 && "tag"@.len() == 3 && "genre"@.len() == 5);
    }
    let request: DirectoryRequest = if by_tag {
        radio::search_by_tag(base, query, limit)
    } else {
        radio::search_by_name(base, query, limit)
    };
    Some(WantedSearch { request, query: query.to_owned(), limit })
}

// ── playing ──────────────────────────────────────────────────────────────────

/// What the arguments ask to play.
#[derive(Debug)]
pub enum WantedStream {
    /// The stream at a given address.
    Direct(StreamTarget),
    /// The station with a given UUID, to be looked up.
    Lookup(String),
    /// Neither an address nor a UUID was given.
    Missing,
    /// Both an address and a UUID were given.
    Both,
}

/// The contents of a [`WantedStream`].
pub enum WantedStreamView {
    Direct(StreamTargetView),
    Lookup(Seq<char>),
    Missing,
    Both,
}

impl View for WantedStream {
    type V = WantedStreamView;

    open spec fn view(&self) -> WantedStreamView {
        match *self {
            WantedStream::Direct(target) => WantedStreamView::Direct(target@),
            WantedStream::Lookup(uuid) => WantedStreamView::Lookup(uuid@),
            WantedStream::Missing => WantedStreamView::Missing,
            WantedStream::Both => WantedStreamView::Both,
        }
    }
}

/// What the arguments ask to play. It takes exactly one of an address and a UUID.
pub open spec fn wanted_stream(args: Seq<(Seq<char>, JsonView)>) -> WantedStreamView {
    match (json::text_member(args, "url"@), json::text_member(args, "uuid"@)) {
        (Some(url), None) => WantedStreamView::Direct(
            StreamTargetView {
                url,
                name: match json::text_member(args, "name"@) {
                    Some(name) => name,
                    None => "Unknown station"@,
                },
                uuid: Seq::empty(),
            },
        ),
        (None, Some(uuid)) => WantedStreamView::Lookup(uuid),
        (None, None) => WantedStreamView::Missing,
        (Some(_), Some(_)) => WantedStreamView::Both,
    }
}

/// What the arguments ask to play.
pub fn play_arguments(args: &Vec<(String, Json)>) -> (wanted: WantedStream)
    ensures
        wanted@ == wanted_stream(json::member_views(args@)),
{
    let url: Option<&str> = get_text(args, "url");
    let uuid: Option<&str> = get_text(args, "uuid");
    let name: Option<&str> = get_text(args, "name");
    match (url, uuid) {
        (Some(url), None) => {
            let name: &str = match name {
                Some(name) => name,
                None => "Unknown station",
            };
            WantedStream::Direct(
                StreamTarget {
                    url: url.to_owned(),
                    name: name.to_owned(),
                    uuid: String::new(),
                },
            )
        },
        (None, Some(uuid)) => WantedStream::Lookup(uuid.to_owned()),
        (None, None) => WantedStream::Missing,
        (Some(_), Some(_)) => WantedStream::Both,
    }
}

// ── what the arguments mean ──────────────────────────────────────────────────

/// The contents of what is asked to be played are its kind and what it holds.
pub proof fn law_contents_of_what_is_asked(wanted: WantedStream)
    ensures
        match wanted {
            WantedStream::Direct(target) => wanted@ == WantedStreamView::Direct(target@),
            WantedStream::Lookup(uuid) => wanted@ == WantedStreamView::Lookup(uuid@),
            WantedStream::Missing => wanted@ == WantedStreamView::Missing,
            WantedStream::Both => wanted@ == WantedStreamView::Both,
        },
{
}

/// Arguments are the members of an object, or none at all, and nothing else will do.
pub proof fn law_arguments_are_an_object(
    arguments: JsonView,
    members: Seq<(Seq<char>, JsonView)>,
)
    ensures
        argument_members(JsonView::Object(members)) == Some(members),
        argument_members(JsonView::Null) is Some,
        argument_members(JsonView::Null)->Some_0.len() == 0,
        argument_members(arguments) is None <==> !(arguments is Object || arguments is Null),
{
}

/// The first parameter of a search is the query as it was given: as a tag exactly where
/// `by` is the text `tag` or `genre`, and as a name in every other case, also where `by`
/// is the text `name` or is not said.
pub proof fn law_search_is_by_tag_or_by_name(
    base: Seq<char>,
    args: Seq<(Seq<char>, JsonView)>,
    query: Seq<char>,
)
    ensures
        ({
            let by = json::text_member(args, "by"@);
            let first = wanted_search(base, args, query).query[0];
            &&& first.1 == query
            &&& first.0 == "tag"@ <==> by == Some("tag"@) || by == Some("genre"@)
            &&& first.0 == "name"@ <==> !(by == Some("tag"@) || by == Some("genre"@))
            &&& by == Some("name"@) || by is None ==> first == ("name"@, query)
            &&& by == Some("tag"@) || by == Some("genre"@) ==> first == ("tag"@, query)
        }),
{
    reveal_strlit("name");
    reveal_strlit("tag");
    reveal_strlit("genre");
    assert("name"@.len() == 4 && "tag"@.len() == 3 && "genre"@.len() == 5);
}

/// A search asks for the number of results that is said, but for one where that is less
/// and for fifty where it is more, and for ten where nothing is said.
pub proof fn law_number_of_results(asked: int)
    ensures
        search_limit(None) == 10,
        asked < 1 ==> search_limit(Some(asked)) == 1,
        1 <= asked <= 50 ==> search_limit(Some(asked)) == asked,
        asked > 50 ==> search_limit(Some(asked)) == 50,
{
}

/// What is played is the address that was given, under the name that was given or as
/// an unknown station, or else the station with the UUID that was given. Neither and
/// both are told apart from these.
pub proof fn law_stream_is_the_one_asked_for(args: Seq<(Seq<char>, JsonView)>)
    ensures
        ({
            let url = json::text_member(args, "url"@);
            let uuid = json::text_member(args, "uuid"@);
            let name = json::text_member(args, "name"@);
            let wanted = wanted_stream(args);
            &&& url is None && uuid is None <==> wanted is Missing
            &&& url is Some && uuid is Some <==> wanted is Both
            &&& wanted matches WantedStreamView::Lookup(asked) ==> url is None && uuid == Some(
                asked,
            )
            &&& wanted matches WantedStreamView::Direct(target) ==> {
                &&& url == Some(target.url)
                &&& uuid is None && target.uuid.len() == 0
                &&& name is Some ==> name == Some(target.name)
                &&& name is None ==> target.name == "Unknown station"@
            }
            &&& url is Some && uuid is None ==> wanted is Direct
            &&& url is None && uuid is Some ==> wanted is Lookup
        }),
{
}

} // verus!
