use vstd::prelude::*;
use crate::json::{string_member, text, Json, JsonValue};
use crate::message::{Content, Envelope, Message, MessageContent};
use crate::service::{branches_doc, databases_doc, query_doc, schema_doc, PlanetScaleService};
use crate::text::lower_of;

verus! {

/// The required string parameters of each operation, in the order in which
/// they are checked; `None` for a name that is no operation.
pub open spec fn operation_params(name: Seq<char>) -> Option<Seq<Seq<char>>> {
    if name == "list_databases"@ {
        Some(seq![])
    } else if name == "list_branches"@ {
        Some(seq!["database"@])
    } else if name == "get_schema"@ {
        Some(seq!["database"@, "branch"@])
    } else if name == "run_query"@ {
        Some(seq!["database"@, "branch"@, "query"@])
    } else {
        None
    }
}

/// The first of `params` that `arguments` does not hold as a string.
pub open spec fn first_missing(params: Seq<Seq<char>>, arguments: Json) -> Option<Seq<char>>
    decreases params.len(),
{
    if params.len() == 0 {
        None
    } else if string_member(arguments, params[0]) is None {
        Some(params[0])
    } else {
        first_missing(params.drop_first(), arguments)
    }
}

/// The text of a string argument that is known to be there.
pub open spec fn arg(arguments: Json, key: Seq<char>) -> Seq<char> {
    string_member(arguments, key).unwrap()
}

/// What an operation returns once its arguments have passed the check.
pub open spec fn operation_result(name: Seq<char>, arguments: Json) -> Json {
    if name == "list_databases"@ {
        databases_doc()
    } else if name == "list_branches"@ {
        branches_doc(arg(arguments, "database"@))
    } else if name == "get_schema"@ {
        schema_doc()
    } else {
        query_doc(lower_of(arg(arguments, "query"@)))
    }
}

/// The error for a required parameter that is missing or not a string.
pub open spec fn missing_message(param: Seq<char>) -> Seq<char> {
    param + " parameter is required"@
}

/// The error for a name that is no operation.
pub open spec fn unknown_message(name: Seq<char>) -> Seq<char> {
    "Unknown function: "@ + name
}

/// The error for a message that is not a call.
pub open spec fn unsupported_message() -> Seq<char> {
    "Unsupported message type"@
}

/// The outcome of calling the operation `name` with `arguments`.
pub open spec fn call_outcome(name: Seq<char>, arguments: Json) -> Result<Json, Seq<char>> {
    match operation_params(name) {
        None => Err(unknown_message(name)),
        Some(params) => match first_missing(params, arguments) {
            Some(param) => Err(missing_message(param)),
            None => Ok(operation_result(name, arguments)),
        },
    }
}

/// The response to `request`: it keeps the request's id, and carries the
/// outcome of a call, or an error for any other message.
pub open spec fn response_to(request: Envelope) -> Envelope {
    Envelope {
        id: request.id,
        content: match request.content {
            Content::Call { name, arguments } => match call_outcome(name, arguments) {
                Ok(result) => Content::Response { result },
                Err(message) => Content::Failure { message },
            },
            _ => Content::Failure { message: unsupported_message() },
        },
    }
}

/// When `arguments` holds every one of `params` as a string, none is missing.
proof fn lemma_none_missing(params: Seq<Seq<char>>, arguments: Json)
    requires
        forall|i: int| 0 <= i < params.len() ==> (#[trigger] string_member(arguments, params[i])) is Some,
    ensures
        first_missing(params, arguments) is None,
    decreases params.len(),
{
    if params.len() > 0 {
        assert(string_member(arguments, params[0]) is Some);
        assert forall|i: int| 0 <= i < params.drop_first().len() implies (#[trigger] string_member(
            arguments,
            params.drop_first()[i],
        )) is Some by {
            assert(params.drop_first()[i] == params[i + 1]);
            assert(string_member(arguments, params[i + 1]) is Some);
        }
        lemma_none_missing(params.drop_first(), arguments);
    }
}

/// When the parameter at `k` is the first that `arguments` lacks, it is the
/// one reported.
proof fn lemma_first_missing_at(params: Seq<Seq<char>>, arguments: Json, k: int)
    requires
        0 <= k < params.len(),
        string_member(arguments, params[k]) is None,
        forall|j: int| 0 <= j < k ==> (#[trigger] string_member(arguments, params[j])) is Some,
    ensures
        first_missing(params, arguments) == Some(params[k]),
    decreases params.len(),
{
    if k > 0 {
        assert(string_member(arguments, params[0]) is Some);
        assert forall|j: int| 0 <= j < k - 1 implies (#[trigger] string_member(
            arguments,
            params.drop_first()[j],
        )) is Some by {
            assert(params.drop_first()[j] == params[j + 1]);
            assert(string_member(arguments, params[j + 1]) is Some);
        }
        lemma_first_missing_at(params.drop_first(), arguments, k - 1);
    }
}

/// A call of a known operation that holds each of its required parameters
/// as a string is answered with a function response under the request's id.
pub proof fn lemma_complete_call_succeeds(request: Envelope)
    requires
        request.content is Call,
        operation_params(request.content->Call_name) is Some,
        forall|i: int|
            0 <= i < operation_params(request.content->Call_name)->0.len() ==> (
            #[trigger] string_member(
                request.content->Call_arguments,
                operation_params(request.content->Call_name)->0[i],
            )) is Some,
    ensures
        response_to(request).id == request.id,
        response_to(request).content is Response,
{
    lemma_none_missing(
        operation_params(request.content->Call_name)->0,
        request.content->Call_arguments,
    );
}

/// A call of a name that is no operation is answered with the error
/// `Unknown function: <name>` under the request's id.
pub proof fn lemma_unknown_function(request: Envelope)
    requires
        request.content is Call,
        operation_params(request.content->Call_name) is None,
    ensures
        response_to(request) == (Envelope {
            id: request.id,
            content: Content::Failure {
                message: "Unknown function: "@ + request.content->Call_name,
            },
        }),
{
}

/// A call of a known operation that lacks some required parameter is
/// answered with the error `<param> parameter is required` for the first
/// one lacking, in the order the operation declares them.
pub proof fn lemma_first_missing_reported(request: Envelope, k: int)
    requires
        request.content is Call,
        operation_params(request.content->Call_name) is Some,
        0 <= k < operation_params(request.content->Call_name)->0.len(),
        string_member(
            request.content->Call_arguments,
            operation_params(request.content->Call_name)->0[k],
        ) is None,
        forall|j: int|
            0 <= j < k ==> (#[trigger] string_member(
                request.content->Call_arguments,
                operation_params(request.content->Call_name)->0[j],
            )) is Some,
    ensures
        response_to(request) == (Envelope {
            id: request.id,
            content: Content::Failure {
                message: operation_params(request.content->Call_name)->0[k]
                    + " parameter is required"@,
            },
        }),
{
    lemma_first_missing_at(
        operation_params(request.content->Call_name)->0,
        request.content->Call_arguments,
        k,
    );
}

/// The model of an outcome.
pub open spec fn outcome_view(r: Result<JsonValue, String>) -> Result<Json, Seq<char>> {
    match r {
        Ok(v) => Ok(v@),
        Err(e) => Err(e@),
    }
}

/// The error that names a missing parameter.
fn missing(param: &str) -> (r: String)
    ensures
        r@ == missing_message(param@),
{
    text(param).concat(" parameter is required")
}

/// Calls the operation `name` of `service` with `arguments`, after checking
/// that each of its required parameters is there as a string.
pub fn call_function(service: &PlanetScaleService, name: &str, arguments: &JsonValue) -> (r: Result<
    JsonValue,
    String,
>)
    ensures
        outcome_view(r) == call_outcome(name@, arguments@),
{
    let ghost params = operation_params(name@);
    proof {
        reveal_with_fuel(first_missing, 4);
    }
    if crate::json::same_text(name, "list_databases") {
        Ok(service.list_databases())
    } else if crate::json::same_text(name, "list_branches") {
        assert(params->0.drop_first() =~= seq![]);
        match arguments.str_member("database") {
            None => Err(missing("database")),
            Some(database) => Ok(service.list_branches(database.as_str())),
        }
    } else if crate::json::same_text(name, "get_schema") {
        assert(params->0.drop_first() =~= seq!["branch"@]);
        assert(params->0.drop_first().drop_first() =~= seq![]);
        match arguments.str_member("database") {
            None => Err(missing("database")),
            Some(database) => match arguments.str_member("branch") {
                None => Err(missing("branch")),
                Some(branch) => Ok(service.get_schema(database.as_str(), branch.as_str())),
            },
        }
    } else if crate::json::same_text(name, "run_query") {
        assert(params->0.drop_first() =~= seq!["branch"@, "query"@]);
        assert(params->0.drop_first().drop_first() =~= seq!["query"@]);
        assert(params->0.drop_first().drop_first().drop_first() =~= seq![]);
        match arguments.str_member("database") {
            None => Err(missing("database")),
            Some(database) => match arguments.str_member("branch") {
                None => Err(missing("branch")),
                Some(branch) => match arguments.str_member("query") {
                    None => Err(missing("query")),
                    Some(query) => Ok(
                        service.run_query(database.as_str(), branch.as_str(), query.as_str()),
                    ),
                },
            },
        }
    } else {
        Err(text("Unknown function: ").concat(name))
    }
}

/// Answers one request: the response keeps its id and carries the outcome of
/// the call, or an error for a message that is not a call.
pub fn handle_message(service: &PlanetScaleService, request: Message) -> (r: Message)
    ensures
        r@ == response_to(request@),
{
    let Message { id, content } = request;
    match content {
        MessageContent::FunctionCall { name, arguments } => {
            match call_function(service, name.as_str(), &arguments) {
                Ok(result) => Message::response(id, result),
                Err(message) => Message::error(id, message),
            }
        },
        _ => Message::error(id, text("Unsupported message type")),
    }
}

} // verus!
