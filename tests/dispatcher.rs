use planetscale_mcp::dispatch::{call_function, handle_message};
use planetscale_mcp::json::JsonValue;
use planetscale_mcp::message::{Message, MessageContent};
use planetscale_mcp::service::{query_result_for_lowered, PlanetScaleService};
use planetscale_mcp::text::contains_text;

fn render(v: &JsonValue) -> String {
    match v {
        JsonValue::Null => "null".to_string(),
        JsonValue::Bool(b) => b.to_string(),
        JsonValue::Number(n) => n.clone(),
        JsonValue::Str(s) => format!("\"{}\"", s),
        JsonValue::Array(items) => {
            let parts: Vec<String> = items.iter().map(render).collect();
            format!("[{}]", parts.join(","))
        }
        JsonValue::Object(fields) => {
            let parts: Vec<String> =
                fields.iter().map(|(k, v)| format!("\"{}\":{}", k, render(v))).collect();
            format!("{{{}}}", parts.join(","))
        }
    }
}

fn render_message(m: &Message) -> String {
    match &m.content {
        MessageContent::FunctionCall { name, arguments } => format!(
            "{{\"id\":\"{}\",\"type\":\"function_call\",\"content\":{{\"name\":\"{}\",\"arguments\":{}}}}}",
            m.id,
            name,
            render(arguments)
        ),
        MessageContent::FunctionResponse { result } => format!(
            "{{\"id\":\"{}\",\"type\":\"function_response\",\"content\":{{\"result\":{}}}}}",
            m.id,
            render(result)
        ),
        MessageContent::Error { message } => format!(
            "{{\"id\":\"{}\",\"type\":\"error\",\"content\":{{\"message\":\"{}\"}}}}",
            m.id, message
        ),
    }
}

fn s(text: &str) -> JsonValue {
    JsonValue::Str(text.to_string())
}

fn obj(fields: Vec<(&str, JsonValue)>) -> JsonValue {
    JsonValue::Object(fields.into_iter().map(|(k, v)| (k.to_string(), v)).collect())
}

fn call(id: &str, name: &str, arguments: JsonValue) -> Message {
    Message {
        id: id.to_string(),
        content: MessageContent::FunctionCall { name: name.to_string(), arguments },
    }
}

fn error_text(r: Result<JsonValue, String>) -> String {
    match r {
        Ok(v) => panic!("expected an error, got {}", render(&v)),
        Err(e) => e,
    }
}

fn ok_text(r: Result<JsonValue, String>) -> String {
    match r {
        Ok(v) => render(&v),
        Err(e) => panic!("expected a result, got the error {}", e),
    }
}

const ROWS: &str = "{\"rows\":[{\"id\":1,\"name\":\"John Doe\",\"email\":\"john@example.com\"},{\"id\":2,\"name\":\"Jane Smith\",\"email\":\"jane@example.com\"}]}";
const AFFECTED: &str = "{\"affected_rows\":1}";

#[test]
fn list_branches_of_shop() {
    let service = PlanetScaleService::new();
    let request = call("1", "list_branches", obj(vec![("database", s("shop"))]));
    let response = handle_message(&service, request);
    assert_eq!(
        render_message(&response),
        "{\"id\":\"1\",\"type\":\"function_response\",\"content\":{\"result\":{\"branches\":[{\"name\":\"main\",\"database\":\"shop\",\"production\":true},{\"name\":\"dev\",\"database\":\"shop\",\"production\":false}]}}}"
    );
}

#[test]
fn complete_calls_answer_with_the_request_id() {
    let service = PlanetScaleService::new();
    let calls = vec![
        call("a", "list_databases", JsonValue::Null),
        call("b", "list_branches", obj(vec![("database", s("db"))])),
        call("c", "get_schema", obj(vec![("database", s("db")), ("branch", s("main"))])),
        call(
            "d",
            "run_query",
            obj(vec![("database", s("db")), ("branch", s("main")), ("query", s("DELETE"))]),
        ),
    ];
    for request in calls {
        let id = request.id.clone();
        let response = handle_message(&service, request);
        assert_eq!(response.id, id);
        assert!(matches!(response.content, MessageContent::FunctionResponse { .. }));
    }
}

#[test]
fn list_databases_gives_one_database() {
    let service = PlanetScaleService::new();
    let r = call_function(&service, "list_databases", &obj(vec![]));
    assert_eq!(
        ok_text(r),
        "{\"databases\":[{\"name\":\"example_db\",\"organization\":\"example_org\"}]}"
    );
}

#[test]
fn get_schema_gives_two_tables() {
    let service = PlanetScaleService::new();
    let args = obj(vec![("database", s("db")), ("branch", s("dev"))]);
    let r = ok_text(call_function(&service, "get_schema", &args));
    assert_eq!(
        r,
        "{\"tables\":[{\"name\":\"users\",\"columns\":[{\"name\":\"id\",\"type\":\"INT\",\"primary\":true},{\"name\":\"name\",\"type\":\"VARCHAR(255)\"},{\"name\":\"email\",\"type\":\"VARCHAR(255)\"}]},{\"name\":\"posts\",\"columns\":[{\"name\":\"id\",\"type\":\"INT\",\"primary\":true},{\"name\":\"user_id\",\"type\":\"INT\"},{\"name\":\"title\",\"type\":\"VARCHAR(255)\"},{\"name\":\"content\",\"type\":\"TEXT\"}]}]}"
    );
}

#[test]
fn unknown_function_is_named_in_the_error() {
    let service = PlanetScaleService::new();
    let response = handle_message(&service, call("7", "drop_database", obj(vec![])));
    assert_eq!(
        render_message(&response),
        "{\"id\":\"7\",\"type\":\"error\",\"content\":{\"message\":\"Unknown function: drop_database\"}}"
    );
    let r = call_function(&service, "List_Databases", &JsonValue::Null);
    assert_eq!(error_text(r), "Unknown function: List_Databases");
}

#[test]
fn list_branches_without_database() {
    let service = PlanetScaleService::new();
    let r = call_function(&service, "list_branches", &obj(vec![]));
    assert_eq!(error_text(r), "database parameter is required");
}

#[test]
fn get_schema_without_branch() {
    let service = PlanetScaleService::new();
    let r = call_function(&service, "get_schema", &obj(vec![("database", s("db"))]));
    assert_eq!(error_text(r), "branch parameter is required");
}

#[test]
fn run_query_reports_the_first_missing_parameter() {
    let service = PlanetScaleService::new();
    let none = call_function(&service, "run_query", &obj(vec![]));
    assert_eq!(error_text(none), "database parameter is required");
    let no_branch =
        call_function(&service, "run_query", &obj(vec![("database", s("db")), ("query", s("x"))]));
    assert_eq!(error_text(no_branch), "branch parameter is required");
    let no_query =
        call_function(&service, "run_query", &obj(vec![("database", s("db")), ("branch", s("b"))]));
    assert_eq!(error_text(no_query), "query parameter is required");
}

#[test]
fn non_string_parameter_counts_as_missing() {
    let service = PlanetScaleService::new();
    let number = obj(vec![("database", JsonValue::Number("3".to_string()))]);
    assert_eq!(
        error_text(call_function(&service, "list_branches", &number)),
        "database parameter is required"
    );
    let not_an_object = JsonValue::Array(vec![s("database")]);
    assert_eq!(
        error_text(call_function(&service, "list_branches", &not_an_object)),
        "database parameter is required"
    );
}

#[test]
fn last_member_of_a_name_is_read() {
    let service = PlanetScaleService::new();
    let args = obj(vec![("database", s("first")), ("database", s("second"))]);
    let r = ok_text(call_function(&service, "list_branches", &args));
    assert!(r.contains("\"database\":\"second\""));
    assert!(!r.contains("first"));
}

fn query(text: &str) -> String {
    let service = PlanetScaleService::new();
    let args = obj(vec![("database", s("db")), ("branch", s("main")), ("query", s(text))]);
    ok_text(call_function(&service, "run_query", &args))
}

#[test]
fn run_query_reads_on_select_in_any_case() {
    assert_eq!(query("SELECT * FROM users"), ROWS);
    assert_eq!(query("select 1"), ROWS);
    assert_eq!(query("with t as (SeLeCt 1) table t"), ROWS);
    assert_eq!(query("-- selected"), ROWS);
    assert_eq!(query("SELECT nom FROM café"), ROWS);
}

#[test]
fn run_query_writes_otherwise() {
    assert_eq!(query("INSERT INTO users VALUES (1)"), AFFECTED);
    assert_eq!(query(""), AFFECTED);
    assert_eq!(query("SELEC T"), AFFECTED);
}

#[test]
fn query_result_for_lowered_text() {
    assert_eq!(render(&query_result_for_lowered("select 1")), ROWS);
    assert_eq!(render(&query_result_for_lowered("SELECT 1")), AFFECTED);
    assert_eq!(render(&query_result_for_lowered("update")), AFFECTED);
}

#[test]
fn substring_search() {
    assert!(contains_text("abc", ""));
    assert!(contains_text("abc", "abc"));
    assert!(contains_text("xxabcx", "bc"));
    assert!(!contains_text("ab", "abc"));
    assert!(!contains_text("aXbc", "abc"));
}

#[test]
fn non_calls_are_unsupported() {
    let service = PlanetScaleService::new();
    let response = Message {
        id: "9".to_string(),
        content: MessageContent::FunctionResponse { result: JsonValue::Null },
    };
    assert_eq!(
        render_message(&handle_message(&service, response)),
        "{\"id\":\"9\",\"type\":\"error\",\"content\":{\"message\":\"Unsupported message type\"}}"
    );
    let error = Message {
        id: "10".to_string(),
        content: MessageContent::Error { message: "boom".to_string() },
    };
    assert_eq!(
        render_message(&handle_message(&service, error)),
        "{\"id\":\"10\",\"type\":\"error\",\"content\":{\"message\":\"Unsupported message type\"}}"
    );
}

#[test]
fn member_lookup() {
    let doc = obj(vec![("a", s("x")), ("b", JsonValue::Bool(true))]);
    assert_eq!(doc.str_member("a").map(|t| t.as_str()), Some("x"));
    assert_eq!(doc.str_member("b"), None);
    assert_eq!(doc.str_member("c"), None);
    assert!(matches!(doc.get("b"), Some(JsonValue::Bool(true))));
    assert!(JsonValue::Null.get("a").is_none());
    assert_eq!(s("q").as_str().map(|t| t.as_str()), Some("q"));
}
