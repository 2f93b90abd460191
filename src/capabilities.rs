use vstd::prelude::*;
use crate::json::{array, boolean, field, field_views, object, string, text, views, Json, JsonValue};
use crate::message::{Content, Envelope, Message};

verus! {

/// The schema that describes one string parameter.
pub open spec fn property_doc(description: Seq<char>) -> Json {
    Json::Object(seq![("type"@, Json::Str("string"@)), ("description"@, Json::Str(description))])
}

/// The schema of an operation's parameters, each given by its name and
/// description; all of them are required strings.
pub open spec fn parameters_doc(params: Seq<(Seq<char>, Seq<char>)>) -> Json {
    Json::Object(
        seq![
            ("$schema"@, Json::Str("http://json-schema.org/draft-07/schema#"@)),
            ("type"@, Json::Str("object"@)),
            ("properties"@, Json::Object(
                params.map_values(|p: (Seq<char>, Seq<char>)| (p.0, property_doc(p.1))),
            )),
            ("required"@, Json::Array(params.map_values(|p: (Seq<char>, Seq<char>)| Json::Str(p.0)))),
            ("additional_properties"@, Json::Bool(false)),
        ],
    )
}

/// The descriptor of an operation: its name, what it does, its parameters.
pub open spec fn tool_doc(
    name: Seq<char>,
    description: Seq<char>,
    params: Seq<(Seq<char>, Seq<char>)>,
) -> Json {
    Json::Object(
        seq![
            ("name"@, Json::Str(name)),
            ("description"@, Json::Str(description)),
            ("parameters"@, parameters_doc(params)),
        ],
    )
}

pub open spec fn database_param() -> (Seq<char>, Seq<char>) {
    ("database"@, "The name of the database"@)
}

pub open spec fn branch_param() -> (Seq<char>, Seq<char>) {
    ("branch"@, "The name of the branch"@)
}

pub open spec fn query_param() -> (Seq<char>, Seq<char>) {
    ("query"@, "The SQL query to execute"@)
}

/// The descriptors of the four operations.
pub open spec fn tools_doc() -> Seq<Json> {
    seq![
        tool_doc("list_databases"@, "Lists all databases in the connected PlanetScale account"@, seq![]),
        tool_doc("list_branches"@, "Lists all branches for a specific database"@, seq![database_param()]),
        tool_doc(
            "get_schema"@,
            "Gets the schema for a specific database and branch"@,
            seq![database_param(), branch_param()],
        ),
        tool_doc(
            "run_query"@,
            "Runs a SQL query against a specific database and branch"@,
            seq![database_param(), branch_param(), query_param()],
        ),
    ]
}

/// The slash command that the server offers.
pub open spec fn slash_commands_doc() -> Seq<Json> {
    seq![
        Json::Object(
            seq![
                ("name"@, Json::Str("ps"@)),
                ("description"@, Json::Str("PlanetScale database operations"@)),
                ("documentation"@, Json::Str("Run operations against PlanetScale databases"@)),
            ],
        ),
    ]
}

/// What the server announces of itself.
pub open spec fn capabilities_doc() -> Json {
    Json::Object(
        seq![
            ("functions"@, Json::Array(tools_doc())),
            ("slash_commands"@, Json::Array(slash_commands_doc())),
            ("name"@, Json::Str("PlanetScale"@)),
            ("description"@, Json::Str("PlanetScale database operations for Zed"@)),
        ],
    )
}

/// The announcement, sent once under the id `server` before any request is read.
pub open spec fn capabilities_message() -> Envelope {
    Envelope { id: "server"@, content: Content::Response { result: capabilities_doc() } }
}

/// The models of parameter names and descriptions.
pub open spec fn params_view(params: Seq<(&str, &str)>) -> Seq<(Seq<char>, Seq<char>)> {
    params.map_values(|p: (&str, &str)| (p.0@, p.1@))
}

fn property(description: &str) -> (r: JsonValue)
    ensures
        r@ == property_doc(description@),
{
    let fields = vec![field("type", string("string")), field("description", string(description))];
    assert(field_views(fields@) =~= property_doc(description@)->Object_0);
    object(fields)
}

fn parameters(params: &Vec<(&str, &str)>) -> (r: JsonValue)
    ensures
        r@ == parameters_doc(params_view(params@)),
{
    let ghost model = params_view(params@);
    let mut properties: Vec<(String, JsonValue)> = Vec::new();
    let mut required: Vec<JsonValue> = Vec::new();
    let mut i: usize = 0;
    while i < params.len()
        invariant
            model == params_view(params@),
            i <= params@.len(),
            field_views(properties@) =~= model.take(i as int).map_values(
                |p: (Seq<char>, Seq<char>)| (p.0, property_doc(p.1)),
            ),
            views(required@) =~= model.take(i as int).map_values(
                |p: (Seq<char>, Seq<char>)| Json::Str(p.0),
            ),
        decreases params@.len() - i,
    {
        let (name, description) = params[i];
        let member = field(name, property(description));
        let entry = string(name);
        let ghost (old_properties, old_required) = (properties@, required@);
        properties.push(member);
        required.push(entry);
        assert(field_views(properties@) =~= field_views(old_properties).push((name@, member.1@)));
        assert(views(required@) =~= views(old_required).push(entry@));
        assert(model.take(i + 1) =~= model.take(i as int).push(model[i as int]));
        assert(model.take(i + 1).map_values(|p: (Seq<char>, Seq<char>)| (p.0, property_doc(p.1)))
            =~= model.take(i as int).map_values(
            |p: (Seq<char>, Seq<char>)| (p.0, property_doc(p.1)),
        ).push((name@, property_doc(description@))));
        assert(model.take(i + 1).map_values(|p: (Seq<char>, Seq<char>)| Json::Str(p.0))
            =~= model.take(i as int).map_values(|p: (Seq<char>, Seq<char>)| Json::Str(p.0)).push(
            Json::Str(name@),
        ));
        i = i + 1;
    }
    assert(model.take(i as int) =~= model);
    let fields = vec![
        field("$schema", string("http://json-schema.org/draft-07/schema#")),
        field("type", string("object")),
        field("properties", object(properties)),
        field("required", array(required)),
        field("additional_properties", boolean(false)),
    ];
    assert(field_views(fields@) =~= parameters_doc(model)->Object_0);
    object(fields)
}

fn tool(name: &str, description: &str, params: Vec<(&str, &str)>) -> (r: JsonValue)
    ensures
        r@ == tool_doc(name@, description@, params_view(params@)),
{
    let fields = vec![
        field("name", string(name)),
        field("description", string(description)),
        field("parameters", parameters(&params)),
    ];
    assert(field_views(fields@) =~= tool_doc(name@, description@, params_view(params@))->Object_0);
    object(fields)
}

/// The descriptors of the operations.
pub fn tools() -> (r: Vec<JsonValue>)
    ensures
        views(r@) == tools_doc(),
{
    let database = ("database", "The name of the database");
    let branch = ("branch", "The name of the branch");
    let query = ("query", "The SQL query to execute");
    let none: Vec<(&str, &str)> = vec![];
    let one = vec![database];
    let two = vec![database, branch];
    let three = vec![database, branch, query];
    assert(params_view(none@) =~= seq![]);
    assert(params_view(one@) =~= seq![database_param()]);
    assert(params_view(two@) =~= seq![database_param(), branch_param()]);
    assert(params_view(three@) =~= seq![database_param(), branch_param(), query_param()]);
    let r = vec![
        tool("list_databases", "Lists all databases in the connected PlanetScale account", none),
        tool("list_branches", "Lists all branches for a specific database", one),
        tool("get_schema", "Gets the schema for a specific database and branch", two),
        tool("run_query", "Runs a SQL query against a specific database and branch", three),
    ];
    assert(views(r@) =~= tools_doc());
    r
}

/// What the server announces of itself: its operations, its slash command,
/// its name and description.
pub fn capabilities() -> (r: JsonValue)
    ensures
        r@ == capabilities_doc(),
{
    let command = vec![
        field("name", string("ps")),
        field("description", string("PlanetScale database operations")),
        field("documentation", string("Run operations against PlanetScale databases")),
    ];
    assert(field_views(command@) =~= slash_commands_doc()[0]->Object_0);
    let commands = vec![object(command)];
    assert(views(commands@) =~= slash_commands_doc());
    let fields = vec![
        field("functions", array(tools())),
        field("slash_commands", array(commands)),
        field("name", string("PlanetScale")),
        field("description", string("PlanetScale database operations for Zed")),
    ];
    assert(field_views(fields@) =~= capabilities_doc()->Object_0);
    object(fields)
}

/// The announcement message.
pub fn capabilities_announcement() -> (r: Message)
    ensures
        r@ == capabilities_message(),
{
    Message::response(text("server"), capabilities())
}

} // verus!
