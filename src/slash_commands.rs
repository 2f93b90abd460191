use vstd::prelude::*;
use crate::json::text;

verus! {

/// A slash command offered to the assistant: its name and its documentation
/// in Markdown.
#[derive(Debug, PartialEq, Eq)]
pub struct SlashCommand {
    pub name: String,
    pub documentation: String,
}

pub const LIST_DBS_DOC: &'static str = r#"
## /ps-list-dbs

Lists all databases in your PlanetScale account.

### Usage
```
/ps-list-dbs
```
"#;

pub const LIST_BRANCHES_DOC: &'static str = r#"
## /ps-list-branches

Lists all branches for a specific database.

### Usage
```
/ps-list-branches <database>
```

### Parameters
- `database`: The name of the database
"#;

pub const SCHEMA_DOC: &'static str = r#"
## /ps-schema

Gets the schema for a specific database and branch.

### Usage
```
/ps-schema <database> <branch>
```

### Parameters
- `database`: The name of the database
- `branch`: The name of the branch
"#;

pub const QUERY_DOC: &'static str = r#"
## /ps-query

Runs a SQL query against a specific database and branch.

### Usage
```
/ps-query <database> <branch> <query>
```

### Parameters
- `database`: The name of the database
- `branch`: The name of the branch
- `query`: The SQL query to execute
"#;

fn command(name: &str, documentation: &str) -> (r: SlashCommand)
    ensures
        r.name@ == name@,
        r.documentation@ == documentation@,
{
    SlashCommand { name: text(name), documentation: text(documentation) }
}

/// `/ps-list-dbs`: lists the databases of the account.
pub fn list_dbs_command() -> (r: SlashCommand)
    ensures
        r.name@ == "ps-list-dbs"@,
        r.documentation@ == LIST_DBS_DOC@,
{
    command("ps-list-dbs", LIST_DBS_DOC)
}

/// `/ps-list-branches <database>`: lists the branches of a database.
pub fn list_branches_command() -> (r: SlashCommand)
    ensures
        r.name@ == "ps-list-branches"@,
        r.documentation@ == LIST_BRANCHES_DOC@,
{
    command("ps-list-branches", LIST_BRANCHES_DOC)
}

/// `/ps-schema <database> <branch>`: the schema of a branch.
pub fn schema_command() -> (r: SlashCommand)
    ensures
        r.name@ == "ps-schema"@,
        r.documentation@ == SCHEMA_DOC@,
{
    command("ps-schema", SCHEMA_DOC)
}

/// `/ps-query <database> <branch> <query>`: runs a query on a branch.
pub fn query_command() -> (r: SlashCommand)
    ensures
        r.name@ == "ps-query"@,
        r.documentation@ == QUERY_DOC@,
{
    command("ps-query", QUERY_DOC)
}

} // verus!
