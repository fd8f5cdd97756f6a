//! JSON Schema descriptions of what the tools are called with.
use vstd::prelude::*;

use crate::json;
use crate::json::{array, entry, object, text, Json, JsonView};

verus! {

/// A parameter of the given type, with a description.
pub open spec fn property_schema(kind: Seq<char>, description: Seq<char>) -> JsonView {
    JsonView::Object(
        seq![("type"@, JsonView::Text(kind)), ("description"@, JsonView::Text(description))],
    )
}

/// A text parameter that is one of a few choices.
pub open spec fn choice_schema(choices: Seq<JsonView>, description: Seq<char>) -> JsonView {
    JsonView::Object(
        seq![
            ("type"@, JsonView::Text("string"@)),
            ("enum"@, JsonView::Array(choices)),
            ("description"@, JsonView::Text(description)),
        ],
    )
}

/// An object with the given parameters, one of which is required.
pub open spec fn parameters_schema(
    properties: Seq<(Seq<char>, JsonView)>,
    required: Seq<char>,
) -> JsonView {
    JsonView::Object(
        seq![
            ("type"@, JsonView::Text("object"@)),
            ("properties"@, JsonView::Object(properties)),
            ("required"@, JsonView::Array(seq![JsonView::Text(required)])),
        ],
    )
}

/// The parameters of `radio_search`.
pub open spec fn search_parameters() -> JsonView {
    parameters_schema(
        seq![
            (
                "query"@,
                property_schema(
                    "string"@,
                    "Search term: station name, genre, or tag depending on 'by'."@,
                ),
            ),
            (
                "by"@,
                choice_schema(
                    seq![
                        JsonView::Text("name"@),
                        JsonView::Text("tag"@),
                        JsonView::Text("genre"@),
                    ],
                    "Search mode: 'name' searches by station name (default), 'tag'/'genre' searches by genre/tag."@,
                ),
            ),
            (
                "limit"@,
                property_schema("integer"@, "Maximum results to return (1–50, default 10)."@),
            ),
        ],
        "query"@,
    )
}

/// The parameters of `radio_play`.
pub open spec fn play_parameters() -> JsonView {
    parameters_schema(
        seq![
            (
                "url"@,
                property_schema(
                    "string"@,
                    "Direct stream URL to play (e.g. from radio_search results). Must use http:// or https://."@,
                ),
            ),
            (
                "uuid"@,
                property_schema(
                    "string"@,
                    "Radio Browser station UUID (format: xxxxxxxx-xxxx-xxxx-xxxx-xxxxxxxxxxxx); the server will resolve the stream URL."@,
                ),
            ),
            (
                "name"@,
                property_schema(
                    "string"@,
                    "Optional display name (used when 'url' is provided without a uuid lookup)."@,
                ),
            ),
        ],
        "url"@,
    )
}

/// No parameters.
pub open spec fn no_parameters() -> JsonView {
    JsonView::Object(
        seq![
            ("type"@, JsonView::Text("object"@)),
            ("properties"@, JsonView::Object(Seq::empty())),
        ],
    )
}

/// Describe a parameter.
fn property(kind: &str, description: &str) -> (schema: Json)
    ensures
        schema@ == property_schema(kind@, description@),
{
    let members: Vec<(String, Json)> = vec![
        entry("type", text(kind)),
        entry("description", text(description)),
    ];
    assert(json::member_views(members@) =~= property_schema(kind@, description@)->Object_0);
    object(members)
}

/// Describe a text parameter that is one of a few choices.
fn choice(choices: Vec<Json>, description: &str) -> (schema: Json)
    ensures
        schema@ == choice_schema(json::item_views(choices@), description@),
{
    let ghost views = json::item_views(choices@);
    let members: Vec<(String, Json)> = vec![
        entry("type", text("string")),
        entry("enum", array(choices)),
        entry("description", text(description)),
    ];
    assert(json::member_views(members@) =~= choice_schema(views, description@)->Object_0);
    object(members)
}

/// Describe an object with the given parameters, one of which is required.
fn parameters(properties: Vec<(String, Json)>, required: &str) -> (schema: Json)
    ensures
        schema@ == parameters_schema(json::member_views(properties@), required@),
{
    let ghost views = json::member_views(properties@);
    let names: Vec<Json> = vec![text(required)];
    assert(json::item_views(names@) =~= seq![JsonView::Text(required@)]);
    let members: Vec<(String, Json)> = vec![
        entry("type", text("object")),
        entry("properties", object(properties)),
        entry("required", array(names)),
    ];
    assert(json::member_views(members@) =~= parameters_schema(views, required@)->Object_0);
    object(members)
}

/// The parameters of `radio_search`.
pub fn search_input_schema() -> (schema: Json)
    ensures
        schema@ == search_parameters(),
{
    let choices: Vec<Json> = vec![text("name"), text("tag"), text("genre")];
    assert(json::item_views(choices@) =~= seq![
        JsonView::Text("name"@),
        JsonView::Text("tag"@),
        JsonView::Text("genre"@),
    ]);
    let properties: Vec<(String, Json)> = vec![
        entry(
            "query",
            property("string", "Search term: station name, genre, or tag depending on 'by'."),
        ),
        entry(
            "by",
            choice(
                choices,
                "Search mode: 'name' searches by station name (default), 'tag'/'genre' searches by genre/tag.",
            ),
        ),
        entry("limit", property("integer", "Maximum results to return (1–50, default 10).")),
    ];
    let schema: Json = parameters(properties, "query");
    assert(schema@->Object_0 =~= search_parameters()->Object_0) by {
        assert(json::member_views(properties@)
            =~= search_parameters()->Object_0[1].1->Object_0);
    }
    schema
}

/// The parameters of `radio_play`.
pub fn play_input_schema() -> (schema: Json)
    ensures
        schema@ == play_parameters(),
{
    let properties: Vec<(String, Json)> = vec![
        entry(
            "url",
            property(
                "string",
                "Direct stream URL to play (e.g. from radio_search results). Must use http:// or https://.",
            ),
        ),
        entry(
            "uuid",
            property(
                "string",
                "Radio Browser station UUID (format: xxxxxxxx-xxxx-xxxx-xxxx-xxxxxxxxxxxx); the server will resolve the stream URL.",
            ),
        ),
        entry(
            "name",
            property(
                "string",
                "Optional display name (used when 'url' is provided without a uuid lookup).",
            ),
        ),
    ];
    let schema: Json = parameters(properties, "url");
    assert(schema@->Object_0 =~= play_parameters()->Object_0) by {
        assert(json::member_views(properties@) =~= play_parameters()->Object_0[1].1->Object_0);
    }
    schema
}

/// No parameters.
pub fn empty_input_schema() -> (schema: Json)
    ensures
        schema@ == no_parameters(),
{
    let none: Vec<(String, Json)> = Vec::new();
    assert(json::member_views(none@) =~= Seq::empty());
    let members: Vec<(String, Json)> = vec![
        entry("type", text("object")),
        entry("properties", object(none)),
    ];
    assert(json::member_views(members@) =~= no_parameters()->Object_0);
    object(members)
}

// ── what the descriptions say ────────────────────────────────────────────────

/// A search takes a `query`, which it requires, one of three ways to search `by` and a
/// `limit`, which is an integer.
pub proof fn law_parameters_of_a_search()
    ensures
        ({
            let schema = search_parameters()->Object_0;
            let properties = schema[1].1->Object_0;
            &&& search_parameters() is Object && schema.len() == 3
            &&& schema[0] == ("type"@, JsonView::Text("object"@))
            &&& schema[1].0 == "properties"@ && schema[1].1 is Object && properties.len() == 3
            &&& schema[2] == ("required"@, JsonView::Array(seq![JsonView::Text("query"@)]))
            &&& properties[0] == (
                "query"@,
                JsonView::Object(
                    seq![
                        ("type"@, JsonView::Text("string"@)),
                        (
                            "description"@,
                            JsonView::Text(
                                "Search term: station name, genre, or tag depending on 'by'."@,
                            ),
                        ),
                    ],
                ),
            )
            &&& properties[1] == (
                "by"@,
                JsonView::Object(
                    seq![
                        ("type"@, JsonView::Text("string"@)),
                        (
                            "enum"@,
                            JsonView::Array(
                                seq![
                                    JsonView::Text("name"@),
                                    JsonView::Text("tag"@),
                                    JsonView::Text("genre"@),
                                ],
                            ),
                        ),
                        (
                            "description"@,
                            JsonView::Text(
                                "Search mode: 'name' searches by station name (default), 'tag'/'genre' searches by genre/tag."@,
                            ),
                        ),
                    ],
                ),
            )
            &&& properties[2] == (
                "limit"@,
                JsonView::Object(
                    seq![
                        ("type"@, JsonView::Text("integer"@)),
                        (
                            "description"@,
                            JsonView::Text("Maximum results to return (1–50, default 10)."@),
                        ),
                    ],
                ),
            )
        }),
{
}

/// A play takes a `url`, a `uuid` and a `name`, all of them texts, and lists the `url` as
/// required.
pub proof fn law_parameters_of_a_play()
    ensures
        ({
            let schema = play_parameters()->Object_0;
            let properties = schema[1].1->Object_0;
            &&& play_parameters() is Object && schema.len() == 3
            &&& schema[0] == ("type"@, JsonView::Text("object"@))
            &&& schema[1].0 == "properties"@ && schema[1].1 is Object && properties.len() == 3
            &&& schema[2] == ("required"@, JsonView::Array(seq![JsonView::Text("url"@)]))
            &&& properties[0] == (
                "url"@,
                JsonView::Object(
                    seq![
                        ("type"@, JsonView::Text("string"@)),
                        (
                            "description"@,
                            JsonView::Text(
                                "Direct stream URL to play (e.g. from radio_search results). Must use http:// or https://."@,
                            ),
                        ),
                    ],
                ),
            )
            &&& properties[1] == (
                "uuid"@,
                JsonView::Object(
                    seq![
                        ("type"@, JsonView::Text("string"@)),
                        (
                            "description"@,
                            JsonView::Text(
                                "Radio Browser station UUID (format: xxxxxxxx-xxxx-xxxx-xxxx-xxxxxxxxxxxx); the server will resolve the stream URL."@,
                            ),
                        ),
                    ],
                ),
            )
            &&& properties[2] == (
                "name"@,
                JsonView::Object(
                    seq![
                        ("type"@, JsonView::Text("string"@)),
                        (
                            "description"@,
                            JsonView::Text(
                                "Optional display name (used when 'url' is provided without a uuid lookup)."@,
                            ),
                        ),
                    ],
                ),
            )
        }),
{
}

/// The tools without parameters take an object without properties.
pub proof fn law_parameters_of_the_others()
    ensures
        no_parameters() == JsonView::Object(
            seq![
                ("type"@, JsonView::Text("object"@)),
                ("properties"@, JsonView::Object(Seq::empty())),
            ],
        ),
{
}

} // verus!
