use planetscale_mcp::capabilities::{capabilities, tools};
use planetscale_mcp::json::JsonValue;
use planetscale_mcp::message::{Message, MessageContent};
use planetscale_mcp::service::PlanetScaleService;
use planetscale_mcp::session::{Action, Event, Session};

fn member<'a>(v: &'a JsonValue, key: &str) -> &'a JsonValue {
    v.get(key).expect("member is there")
}

fn text_of(v: &JsonValue) -> &str {
    match v {
        JsonValue::Str(s) => s.as_str(),
        _ => panic!("not a string"),
    }
}

fn list_branches(id: &str) -> Message {
    Message {
        id: id.to_string(),
        content: MessageContent::FunctionCall {
            name: "list_branches".to_string(),
            arguments: JsonValue::Object(vec![(
                "database".to_string(),
                JsonValue::Str("shop".to_string()),
            )]),
        },
    }
}

#[test]
fn announcement_comes_first() {
    let (session, announcement) = Session::open();
    assert!(!session.is_ended());
    assert_eq!(announcement.id, "server");
    match &announcement.content {
        MessageContent::FunctionResponse { result } => {
            assert_eq!(text_of(member(result, "name")), "PlanetScale");
            assert_eq!(
                text_of(member(result, "description")),
                "PlanetScale database operations for Zed"
            );
        }
        _ => panic!("the announcement is a function response"),
    }
}

#[test]
fn malformed_line_then_valid_line_gives_one_reply() {
    let service = PlanetScaleService::new();
    let (mut session, _) = Session::open();
    let mut replies = Vec::new();
    let mut reports = Vec::new();
    for event in vec![
        Event::Malformed("expected value at line 1 column 1".to_string()),
        Event::Line(list_branches("2")),
    ] {
        match session.step(&service, event) {
            Action::Reply(m) => replies.push(m),
            Action::Report(d) => reports.push(d),
            Action::Stop => panic!("the run does not stop"),
        }
    }
    assert_eq!(replies.len(), 1);
    assert_eq!(replies[0].id, "2");
    assert_eq!(reports, vec!["Error parsing message: expected value at line 1 column 1".to_string()]);
    assert!(!session.is_ended());
}

#[test]
fn end_of_input_stops_the_run() {
    let service = PlanetScaleService::new();
    let (mut session, _) = Session::open();
    assert!(matches!(session.step(&service, Event::EndOfInput), Action::Stop));
    assert!(session.is_ended());
    assert!(matches!(session.step(&service, Event::Line(list_branches("3"))), Action::Stop));
    assert!(matches!(session.step(&service, Event::Malformed("x".to_string())), Action::Stop));
}

#[test]
fn announced_functions_and_their_parameters() {
    let all = tools();
    let names: Vec<&str> = all.iter().map(|t| text_of(member(t, "name"))).collect();
    assert_eq!(names, vec!["list_databases", "list_branches", "get_schema", "run_query"]);
    let run_query = member(&all[3], "parameters");
    assert_eq!(
        text_of(member(run_query, "$schema")),
        "http://json-schema.org/draft-07/schema#"
    );
    assert_eq!(text_of(member(run_query, "type")), "object");
    match member(run_query, "required") {
        JsonValue::Array(items) => {
            let required: Vec<&str> = items.iter().map(text_of).collect();
            assert_eq!(required, vec!["database", "branch", "query"]);
        }
        _ => panic!("required is a list"),
    }
    let query = member(member(run_query, "properties"), "query");
    assert_eq!(text_of(member(query, "description")), "The SQL query to execute");
    assert!(matches!(member(run_query, "additional_properties"), JsonValue::Bool(false)));
    match member(member(&all[0], "parameters"), "properties") {
        JsonValue::Object(fields) => assert!(fields.is_empty()),
        _ => panic!("properties is an object"),
    }
}

#[test]
fn announced_slash_command() {
    let caps = capabilities();
    match member(&caps, "slash_commands") {
        JsonValue::Array(items) => {
            assert_eq!(items.len(), 1);
            assert_eq!(text_of(member(&items[0], "name")), "ps");
            assert_eq!(
                text_of(member(&items[0], "documentation")),
                "Run operations against PlanetScale databases"
            );
        }
        _ => panic!("slash_commands is a list"),
    }
    match member(&caps, "functions") {
        JsonValue::Array(items) => assert_eq!(items.len(), 4),
        _ => panic!("functions is a list"),
    }
}
