//! JSON values: what a tool is called with, what it replies and how its
//! parameters are described.
use vstd::prelude::*;

use crate::text::same_text;

verus! {

/// A JSON value. The members of an object stand in the order they were written.
#[derive(Debug)]
pub enum Json {
    Null,
    Bool(bool),
    /// An integer that is not negative.
    Unsigned(u64),
    /// An integer of either sign.
    Signed(i64),
    /// A number that is not an integer, as it was written.
    Real(String),
    Text(String),
    Array(Vec<Json>),
    Object(Vec<(String, Json)>),
}

/// The contents of a [`Json`] value.
pub enum JsonView {
    Null,
    Bool(bool),
    Integer(int),
    Real(Seq<char>),
    Text(Seq<char>),
    Array(Seq<JsonView>),
    Object(Seq<(Seq<char>, JsonView)>),
}

impl Json {
    /// The contents of the value.
    pub open spec fn model(self) -> JsonView
        decreases self,
    {
        match self {
            Json::Null => JsonView::Null,
            Json::Bool(b) => JsonView::Bool(b),
            Json::Unsigned(n) => JsonView::Integer(n as int),
            Json::Signed(n) => JsonView::Integer(n as int),
            Json::Real(digits) => JsonView::Real(digits@),
            Json::Text(text) => JsonView::Text(text@),
            Json::Array(items) => JsonView::Array(
                Seq::new(
                    items@.len(),
                    |i: int|
                        if 0 <= i < items@.len() {
                            items@[i].model()
                        } else {
                            JsonView::Null
                        },
                ),
            ),
            Json::Object(members) => JsonView::Object(
                Seq::new(
                    members@.len(),
                    |i: int|
                        if 0 <= i < members@.len() {
                            (members@[i].0@, members@[i].1.model())
                        } else {
                            (Seq::empty(), JsonView::Null)
                        },
                ),
            ),
        }
    }
}

impl View for Json {
    type V = JsonView;

    open spec fn view(&self) -> JsonView {
        self.model()
    }
}

/// The contents of a list of values, in the same order.
pub open spec fn item_views(items: Seq<Json>) -> Seq<JsonView> {
    Seq::new(items.len(), |i: int| items[i]@)
}

/// The contents of the members of an object, in the same order.
pub open spec fn member_views(members: Seq<(String, Json)>) -> Seq<(Seq<char>, JsonView)> {
    Seq::new(members.len(), |i: int| (members[i].0@, members[i].1@))
}

/// The value of the first member named `key`, if there is one.
pub open spec fn member(members: Seq<(Seq<char>, JsonView)>, key: Seq<char>) -> Option<JsonView>
    decreases members.len(),
{
    if members.len() == 0 {
        None
    } else if members[0].0 == key {
        Some(members[0].1)
    } else {
        member(members.drop_first(), key)
    }
}

/// The text of the member named `key`, if that member is there and is a text.
pub open spec fn text_member(members: Seq<(Seq<char>, JsonView)>, key: Seq<char>) -> Option<
    Seq<char>,
> {
    match member(members, key) {
        Some(JsonView::Text(text)) => Some(text),
        _ => None,
    }
}

/// The number in the member named `key`, if that member is there and is an
/// integer that 64 bits hold without a sign.
pub open spec fn unsigned_member(members: Seq<(Seq<char>, JsonView)>, key: Seq<char>) -> Option<
    int,
> {
    match member(members, key) {
        Some(JsonView::Integer(n)) => if 0 <= n <= u64::MAX {
            Some(n)
        } else {
            None
        },
        _ => None,
    }
}

impl Json {
    /// The text of a text value.
    pub fn as_str(&self) -> (text: Option<&str>)
        ensures
            match text {
                Some(t) => self@ == JsonView::Text(t@),
                None => !(self@ is Text),
            },
    {
        match self {
            Json::Text(t) => Some(t.as_str()),
            _ => None,
        }
    }

    /// The number of an integer value that 64 bits hold without a sign.
    pub fn as_u64(&self) -> (number: Option<u64>)
        ensures
            match number {
                Some(n) => self@ == JsonView::Integer(n as int),
                None => !(self@ is Integer && 0 <= self@->Integer_0 <= u64::MAX),
            },
    {
        match self {
            Json::Unsigned(n) => Some(*n),
            Json::Signed(n) => if *n >= 0 {
                Some(*n as u64)
            } else {
                None
            },
            _ => None,
        }
    }
}

/// The value of the first member named `key`.
pub fn get<'a>(members: &'a Vec<(String, Json)>, key: &str) -> (value: Option<&'a Json>)
    ensures
        match value {
            Some(v) => member(member_views(members@), key@) == Some(v@),
            None => member(member_views(members@), key@) is None,
        },
{
    let mut i: usize = 0;
    assert(member_views(members@).skip(0) =~= member_views(members@));
    while i < members.len()
        invariant
            i <= members.len(),
            member(member_views(members@), key@) == member(
                member_views(members@).skip(i as int),
                key@,
            ),
        decreases members.len() - i,
    {
        if same_text(&members[i].0, key) {
            return Some(&members[i].1);
        }
        assert(member_views(members@).skip(i as int).drop_first() =~= member_views(members@).skip(
            i + 1,
        ));
        i += 1;
    }
    None
}

/// The text of the member named `key`.
pub fn get_text<'a>(members: &'a Vec<(String, Json)>, key: &str) -> (text: Option<&'a str>)
    ensures
        match text {
            Some(t) => text_member(member_views(members@), key@) == Some(t@),
            None => text_member(member_views(members@), key@) is None,
        },
{
    match get(members, key) {
        Some(value) => value.as_str(),
        None => None,
    }
}

/// The number in the member named `key`.
pub fn get_unsigned(members: &Vec<(String, Json)>, key: &str) -> (number: Option<u64>)
    ensures
        match number {
            Some(n) => unsigned_member(member_views(members@), key@) == Some(n as int),
            None => unsigned_member(member_views(members@), key@) is None,
        },
{
    match get(members, key) {
        Some(value) => value.as_u64(),
        None => None,
    }
}

/// A text value.
pub fn text(content: &str) -> (value: Json)
    ensures
        value@ == JsonView::Text(content@),
{
    Json::Text(content.to_owned())
}

/// One member of an object.
pub fn entry(key: &str, value: Json) -> (pair: (String, Json))
    ensures
        pair.0@ == key@,
        pair.1@ == value@,
{
    (key.to_owned(), value)
}

/// An array of values.
pub fn array(items: Vec<Json>) -> (value: Json)
    ensures
        value@ == JsonView::Array(item_views(items@)),
{
    let value: Json = Json::Array(items);
    assert(value@->Array_0 =~= item_views(items@));
    value
}

/// An object with the given members.
pub fn object(members: Vec<(String, Json)>) -> (value: Json)
    ensures
        value@ == JsonView::Object(member_views(members@)),
{
    let value: Json = Json::Object(members);
    assert(value@->Object_0 =~= member_views(members@));
    value
}

// ── what the operations keep to ──────────────────────────────────────────────

/// The contents of a value are what it holds: texts character for character,
/// integers by their value whatever their width, and the parts of arrays and objects
/// one by one, in order.
pub proof fn law_contents_are_what_is_held(value: Json)
    ensures
        match value {
            Json::Null => value@ == JsonView::Null,
            Json::Bool(b) => value@ == JsonView::Bool(b),
            Json::Unsigned(n) => value@ == JsonView::Integer(n as int),
            Json::Signed(n) => value@ == JsonView::Integer(n as int),
            Json::Real(digits) => value@ == JsonView::Real(digits@),
            Json::Text(t) => value@ == JsonView::Text(t@),
            Json::Array(items) => value@ is Array && value@->Array_0.len() == items@.len()
                && forall|i: int|
                0 <= i < items@.len() ==> #[trigger] value@->Array_0[i] == items@[i]@,
            Json::Object(members) => value@ is Object && value@->Object_0.len() == members@.len()
                && forall|i: int|
                0 <= i < members@.len() ==> #[trigger] value@->Object_0[i] == (
                    members@[i].0@,
                    members@[i].1@,
                ),
        },
{
}

/// The contents of a list are those of its values, one by one, in order.
pub proof fn law_lists_keep_their_order(items: Seq<Json>, members: Seq<(String, Json)>)
    ensures
        item_views(items).len() == items.len(),
        forall|i: int| 0 <= i < items.len() ==> #[trigger] item_views(items)[i] == items[i]@,
        member_views(members).len() == members.len(),
        forall|i: int|
            0 <= i < members.len() ==> #[trigger] member_views(members)[i] == (
                members[i].0@,
                members[i].1@,
            ),
{
}

/// The first member with a name is the one that is found, as it is: as a text where it
/// is a text, and as a number where it is an integer from 0 to 2^64 - 1.
pub proof fn law_first_member_is_found(
    members: Seq<(Seq<char>, JsonView)>,
    key: Seq<char>,
    i: int,
)
    requires
        0 <= i < members.len(),
        members[i].0 == key,
        forall|j: int| 0 <= j < i ==> (#[trigger] members[j]).0 != key,
    ensures
        member(members, key) == Some(members[i].1),
        members[i].1 matches JsonView::Text(t) ==> text_member(members, key) == Some(t),
        !(members[i].1 is Text) ==> text_member(members, key) is None,
        members[i].1 matches JsonView::Integer(n) && 0 <= n <= 18446744073709551615
            ==> unsigned_member(members, key) == Some(members[i].1->Integer_0),
        !(members[i].1 matches JsonView::Integer(n) && 0 <= n <= 18446744073709551615)
            ==> unsigned_member(members, key) is None,
    decreases i,
{
    if i > 0 {
        let rest = members.drop_first();
        assert(members[0].0 != key);
        assert forall|j: int| 0 <= j < i - 1 implies (#[trigger] rest[j]).0 != key by {
            assert(rest[j] == members[j + 1]);
        }
        law_first_member_is_found(rest, key, i - 1);
    }
}

/// A member that is not there is not found.
pub proof fn law_absent_member_is_not_found(members: Seq<(Seq<char>, JsonView)>, key: Seq<char>)
    requires
        forall|j: int| 0 <= j < members.len() ==> (#[trigger] members[j]).0 != key,
    ensures
        member(members, key) is None,
        text_member(members, key) is None,
        unsigned_member(members, key) is None,
    decreases members.len(),
{
    if members.len() > 0 {
        let rest = members.drop_first();
        assert(members[0].0 != key);
        assert forall|j: int| 0 <= j < rest.len() implies (#[trigger] rest[j]).0 != key by {
            assert(rest[j] == members[j + 1]);
        }
        law_absent_member_is_not_found(rest, key);
    }
}

} // verus!
