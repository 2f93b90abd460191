use vstd::prelude::*;
use crate::json::{array, boolean, field, field_views, number, object, string, views, Json, JsonValue};
use crate::text::{
    all_ascii, contains, contains_ignoring_case, contains_text, lemma_lowered_search, lower_of,
    lowercase, small_letters,
};

verus! {

/// `{"name": <name>, "type": <type>}`
pub open spec fn column_doc(name: Seq<char>, kind: Seq<char>) -> Json {
    Json::Object(seq![("name"@, Json::Str(name)), ("type"@, Json::Str(kind))])
}

/// `{"name": <name>, "type": <type>, "primary": true}`
pub open spec fn key_column_doc(name: Seq<char>, kind: Seq<char>) -> Json {
    Json::Object(
        seq![("name"@, Json::Str(name)), ("type"@, Json::Str(kind)), ("primary"@, Json::Bool(true))],
    )
}

/// `{"name": <name>, "columns": [...]}`
pub open spec fn table_doc(name: Seq<char>, columns: Seq<Json>) -> Json {
    Json::Object(seq![("name"@, Json::Str(name)), ("columns"@, Json::Array(columns))])
}

/// The listing of databases: one database of one organization.
pub open spec fn databases_doc() -> Json {
    Json::Object(
        seq![
            ("databases"@, Json::Array(
                seq![
                    Json::Object(
                        seq![
                            ("name"@, Json::Str("example_db"@)),
                            ("organization"@, Json::Str("example_org"@)),
                        ],
                    ),
                ],
            )),
        ],
    )
}

/// One branch of `database`.
pub open spec fn branch_doc(name: Seq<char>, database: Seq<char>, production: bool) -> Json {
    Json::Object(
        seq![
            ("name"@, Json::Str(name)),
            ("database"@, Json::Str(database)),
            ("production"@, Json::Bool(production)),
        ],
    )
}

/// The listing of branches of `database`: `main`, the production branch, and `dev`.
pub open spec fn branches_doc(database: Seq<char>) -> Json {
    Json::Object(
        seq![
            ("branches"@, Json::Array(
                seq![
                    branch_doc("main"@, database, true),
                    branch_doc("dev"@, database, false),
                ],
            )),
        ],
    )
}

/// The schema of every branch: the tables `users` and `posts`.
pub open spec fn schema_doc() -> Json {
    Json::Object(
        seq![
            ("tables"@, Json::Array(
                seq![
                    table_doc(
                        "users"@,
                        seq![
                            key_column_doc("id"@, "INT"@),
                            column_doc("name"@, "VARCHAR(255)"@),
                            column_doc("email"@, "VARCHAR(255)"@),
                        ],
                    ),
                    table_doc(
                        "posts"@,
                        seq![
                            key_column_doc("id"@, "INT"@),
                            column_doc("user_id"@, "INT"@),
                            column_doc("title"@, "VARCHAR(255)"@),
                            column_doc("content"@, "TEXT"@),
                        ],
                    ),
                ],
            )),
        ],
    )
}

/// One row of the result set of a read.
pub open spec fn row_doc(id: Seq<char>, name: Seq<char>, email: Seq<char>) -> Json {
    Json::Object(
        seq![
            ("id"@, Json::Number(id)),
            ("name"@, Json::Str(name)),
            ("email"@, Json::Str(email)),
        ],
    )
}

/// The result set of a read: two rows.
pub open spec fn rows_doc() -> Json {
    Json::Object(
        seq![
            ("rows"@, Json::Array(
                seq![
                    row_doc("1"@, "John Doe"@, "john@example.com"@),
                    row_doc("2"@, "Jane Smith"@, "jane@example.com"@),
                ],
            )),
        ],
    )
}

/// The result of a write: one affected row.
pub open spec fn affected_doc() -> Json {
    Json::Object(seq![("affected_rows"@, Json::Number("1"@))])
}

/// A query reads when its lowercase form holds `select`.
pub open spec fn is_read(lowered: Seq<char>) -> bool {
    contains(lowered, "select"@)
}

/// The result of a query whose lowercase form is `lowered`.
pub open spec fn query_doc(lowered: Seq<char>) -> Json {
    if is_read(lowered) {
        rows_doc()
    } else {
        affected_doc()
    }
}

fn column(name: &str, kind: &str) -> (r: JsonValue)
    ensures
        r@ == column_doc(name@, kind@),
{
    let fields = vec![field("name", string(name)), field("type", string(kind))];
    assert(fields@.len() == 2);
    assert(field_views(fields@) =~= column_doc(name@, kind@)->Object_0);
    object(fields)
}

fn key_column(name: &str, kind: &str) -> (r: JsonValue)
    ensures
        r@ == key_column_doc(name@, kind@),
{
    let fields = vec![
        field("name", string(name)),
        field("type", string(kind)),
        field("primary", boolean(true)),
    ];
    assert(field_views(fields@) =~= key_column_doc(name@, kind@)->Object_0);
    object(fields)
}

fn table(name: &str, columns: Vec<JsonValue>) -> (r: JsonValue)
    ensures
        r@ == table_doc(name@, views(columns@)),
{
    let fields = vec![field("name", string(name)), field("columns", array(columns))];
    assert(field_views(fields@) =~= table_doc(name@, views(columns@))->Object_0);
    object(fields)
}

fn branch(name: &str, database: &str, production: bool) -> (r: JsonValue)
    ensures
        r@ == branch_doc(name@, database@, production),
{
    let fields = vec![
        field("name", string(name)),
        field("database", string(database)),
        field("production", boolean(production)),
    ];
    assert(field_views(fields@) =~= branch_doc(name@, database@, production)->Object_0);
    object(fields)
}

fn row(id: &str, name: &str, email: &str) -> (r: JsonValue)
    ensures
        r@ == row_doc(id@, name@, email@),
{
    let fields = vec![field("id", number(id)), field("name", string(name)), field("email", string(email))];
    assert(field_views(fields@) =~= row_doc(id@, name@, email@)->Object_0);
    object(fields)
}

/// `{<key>: [<items>...]}`
fn listing(key: &str, items: Vec<JsonValue>) -> (r: JsonValue)
    ensures
        r@ == Json::Object(seq![(key@, Json::Array(views(items@)))]),
{
    let fields = vec![field(key, array(items))];
    assert(field_views(fields@) =~= seq![(key@, Json::Array(views(items@)))]);
    object(fields)
}

/// The result set of a read.
pub fn rows() -> (r: JsonValue)
    ensures
        r@ == rows_doc(),
{
    let items = vec![
        row("1", "John Doe", "john@example.com"),
        row("2", "Jane Smith", "jane@example.com"),
    ];
    assert(views(items@) =~= rows_doc()->Object_0[0].1->Array_0);
    listing("rows", items)
}

/// The result of a write.
pub fn affected() -> (r: JsonValue)
    ensures
        r@ == affected_doc(),
{
    let fields = vec![field("affected_rows", number("1"))];
    assert(field_views(fields@) =~= affected_doc()->Object_0);
    object(fields)
}

/// The result of a query whose lowercase form is `lowered`: the result set
/// of a read when it holds `select`, else the result of a write.
pub fn query_result_for_lowered(lowered: &str) -> (r: JsonValue)
    ensures
        r@ == query_doc(lowered@),
{
    proof {
        reveal_strlit("select");
    }
    if contains_text(lowered, "select") {
        rows()
    } else {
        affected()
    }
}

/// The stand-in for the database service: stateless, every operation succeeds.
pub struct PlanetScaleService {}

impl PlanetScaleService {
    pub fn new() -> (r: Self) {
        PlanetScaleService {  }
    }

    /// The databases of the account.
    pub fn list_databases(&self) -> (r: JsonValue)
        ensures
            r@ == databases_doc(),
    {
        let fields = vec![field("name", string("example_db")), field("organization", string("example_org"))];
        assert(field_views(fields@) =~= databases_doc()->Object_0[0].1->Array_0[0]->Object_0);
        let items = vec![object(fields)];
        assert(views(items@) =~= databases_doc()->Object_0[0].1->Array_0);
        listing("databases", items)
    }

    /// The branches of `database`.
    pub fn list_branches(&self, database: &str) -> (r: JsonValue)
        ensures
            r@ == branches_doc(database@),
    {
        let items = vec![branch("main", database, true), branch("dev", database, false)];
        assert(views(items@) =~= branches_doc(database@)->Object_0[0].1->Array_0);
        listing("branches", items)
    }

    /// The schema of a branch of a database.
    pub fn get_schema(&self, database: &str, branch: &str) -> (r: JsonValue)
        ensures
            r@ == schema_doc(),
    {
        let users_columns = vec![
            key_column("id", "INT"),
            column("name", "VARCHAR(255)"),
            column("email", "VARCHAR(255)"),
        ];
        let posts_columns = vec![
            key_column("id", "INT"),
            column("user_id", "INT"),
            column("title", "VARCHAR(255)"),
            column("content", "TEXT"),
        ];
        let ghost tables = schema_doc()->Object_0[0].1->Array_0;
        assert(views(users_columns@) =~= tables[0]->Object_0[1].1->Array_0);
        assert(views(posts_columns@) =~= tables[1]->Object_0[1].1->Array_0);
        let items = vec![table("users", users_columns), table("posts", posts_columns)];
        assert(views(items@) =~= tables);
        listing("tables", items)
    }

    /// Runs `query` on a branch of a database: a read when the query holds
    /// `select` in any case, a write otherwise.
    pub fn run_query(&self, database: &str, branch: &str, query: &str) -> (r: JsonValue)
        ensures
            r@ == query_doc(lower_of(query@)),
            all_ascii(query@) ==> r@ == (if contains_ignoring_case(query@, "select"@) {
                rows_doc()
            } else {
                affected_doc()
            }),
    {
        let lowered = lowercase(query);
        proof {
            if all_ascii(query@) {
                reveal_strlit("select");
                assert(small_letters("select"@));
                lemma_lowered_search(query@, lowered@, "select"@);
            }
        }
        query_result_for_lowered(lowered.as_str())
    }
}

} // verus!
