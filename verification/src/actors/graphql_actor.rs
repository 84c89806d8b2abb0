//! The decisions of the GraphQL actor around the HTTP request it makes: what
//! body it sends, and what text it shows for the response.
use vstd::prelude::*;

use super::graphql_actor_message::GraphQLPostRequestParams;

verus! {

#[verifier::external_type_specification]
#[verifier::external_body]
pub struct ExPrettyEr(pretty_goodness::json::PrettyEr);

pub const ERROR_VARIABLES_NOT_AN_OBJECT: &'static str =
    "Error: Parameters not provided in the format of an object";

/// What `serde_json::from_str::<serde_json::Value>` makes of a text: whether
/// it parses to a JSON object, or the text of the parse error.
pub uninterp spec fn json_parse_outcome(text: Seq<char>) -> Result<bool, Seq<char>>;

/// Parses JSON text.
///
/// Calls `serde_json::from_str` for a `serde_json::Value` and tells whether
/// the value is an object; on failure it keeps the error's text. The outcome
/// is named by `json_parse_outcome`.
#[verifier::external_body]
fn parse_json(text: &str) -> (parsed: Result<bool, String>)
    ensures
        match parsed {
            Ok(is_object) => json_parse_outcome(text@) == Ok::<bool, Seq<char>>(is_object),
            Err(e) => json_parse_outcome(text@) == Err::<bool, Seq<char>>(e@),
        },
{
    match serde_json::from_str::<serde_json::Value>(text) {
        Ok(serde_json::Value::Object(_)) => Ok(true),
        Ok(_) => Ok(false),
        Err(err) => Err(err.to_string()),
    }
}

/// The body of a GraphQL POST request: the address it goes to, the query, and
/// the user's variables text when the user gave any (a JSON object).
pub struct GraphQLRequestBody {
    pub address: String,
    pub query: String,
    pub variables: Option<String>,
}

/// What becomes of the query variables the user typed: none when the field
/// is empty, the text itself when it is a JSON object, and otherwise
/// the text of the error to show.
pub open spec fn variables_outcome(text: Seq<char>) -> Result<bool, Seq<char>> {
    if text.len() == 0 {
        Ok(false)
    } else {
        match json_parse_outcome(text) {
            Ok(true) => Ok(true),
            Ok(false) => Err(ERROR_VARIABLES_NOT_AN_OBJECT@),
            Err(e) => Err(e),
        }
    }
}

/// The request body for the user's parameters, or the error text to show in
/// place of a response. The variables sent are the user's text, exactly when
/// it is not empty.
pub fn plan_request(params: GraphQLPostRequestParams) -> (plan: Result<GraphQLRequestBody, String>)
    ensures
        match plan {
            Ok(body) => {
                &&& variables_outcome(params.query_variables@) == Ok::<bool, Seq<char>>(
                    body.variables is Some,
                )
                &&& body.variables == (if params.query_variables@.len() == 0 {
                    None::<String>
                } else {
                    Some(params.query_variables)
                })
                &&& body.address == params.address
                &&& body.query == params.query
            },
            Err(text) => variables_outcome(params.query_variables@) == Err::<bool, Seq<char>>(
                text@,
            ),
        },
{
    let GraphQLPostRequestParams { address, query, query_variables, http_headers: _ } = params;
    if query_variables.as_str().is_empty() {
        return Ok(GraphQLRequestBody { address, query, variables: None });
    }
    match parse_json(query_variables.as_str()) {
        Ok(is_object) => {
            if is_object {
                Ok(GraphQLRequestBody { address, query, variables: Some(query_variables) })
            } else {
                Err(String::from_str(ERROR_VARIABLES_NOT_AN_OBJECT))
            }
        },
        Err(text) => Err(text),
    }
}

/// The most opening brackets (`{` and `[`) a text may hold for the prettyer
/// to be given it.
///
/// The prettyer descends into each object and array by recursion and has no
/// depth limit of its own; on a 2 MiB thread stack (the size of a tokio
/// worker's) it takes a nesting of twice this many levels, and overflows the
/// stack at eight times as many. Which brackets nest depends on where the
/// prettyer takes strings to begin and end, so the bound is on all opening
/// brackets of the text: however it reads strings, it cannot nest deeper.
pub const PRETTY_BRACKET_LIMIT: usize = 1024;

/// The number of opening brackets (`{` and `[`, bytes 0x7B and 0x5B) in a
/// text's UTF-8 encoding, inside strings or not. In UTF-8 these bytes stand
/// only for those two characters.
pub open spec fn opening_brackets(bytes: Seq<u8>) -> nat
    decreases bytes.len(),
{
    if bytes.len() == 0 {
        0
    } else {
        opening_brackets(bytes.drop_last()) + if bytes.last() == 0x7Bu8 || bytes.last() == 0x5Bu8 {
            1nat
        } else {
            0nat
        }
    }
}

/// Whether the prettyer may be given the text: its recursion is bounded by the
/// number of opening brackets in it.
pub open spec fn prettyer_can_take(text: Seq<char>) -> bool {
    opening_brackets(vstd::utf8::encode_utf8(text)) <= PRETTY_BRACKET_LIMIT
}

/// What `PrettyEr::prettyafy` makes of a JSON text: the indented text, or the
/// text of its parsing error.
pub uninterp spec fn prettified(text: Seq<char>) -> Result<Seq<char>, Seq<char>>;

/// Indents JSON text.
///
/// Calls `pretty_goodness::json::PrettyEr::prettyafy`, which resets the
/// prettyer's indentation before it starts, so its outcome depends on the text
/// alone; on failure it keeps the error's `to_string`. The outcome is named by
/// `prettified`. The prettyer descends into each object and array it meets by
/// recursion, with no limit of its own, one level per opening bracket it
/// reads; the `requires` bounds the opening brackets of the whole text, which
/// bounds that depth however the prettyer reads string contents.
#[verifier::external_body]
fn prettyafy(prettyer: &mut pretty_goodness::json::PrettyEr, text: &String) -> (pretty: Result<String, String>)
    requires
        prettyer_can_take(text@),
    ensures
        match pretty {
            Ok(p) => prettified(text@) == Ok::<Seq<char>, Seq<char>>(p@),
            Err(e) => prettified(text@) == Err::<Seq<char>, Seq<char>>(e@),
        },
{
    match prettyer.prettyafy(text) {
        Ok(pretty) => Ok(pretty),
        Err(err) => Err(err.to_string()),
    }
}

/// Whether the text holds at most `PRETTY_BRACKET_LIMIT` opening brackets.
pub fn within_bracket_limit(text: &str) -> (within: bool)
    ensures
        within == prettyer_can_take(text@),
{
    let bytes = text.as_bytes();
    let mut count: usize = 0;
    let mut i: usize = 0;
    while i < bytes.len()
        invariant
            i <= bytes@.len(),
            bytes@ == vstd::utf8::encode_utf8(text@),
            count == if opening_brackets(bytes@.take(i as int)) <= PRETTY_BRACKET_LIMIT {
                opening_brackets(bytes@.take(i as int))
            } else {
                PRETTY_BRACKET_LIMIT as nat + 1
            },
        decreases bytes@.len() - i,
    {
        let b: u8 = bytes[i];
        proof {
            let seen = bytes@.take(i as int + 1);
            assert(seen.drop_last() =~= bytes@.take(i as int));
            assert(seen.last() == b);
        }
        if (b == 0x7Bu8 || b == 0x5Bu8) && count <= PRETTY_BRACKET_LIMIT {
            count = count + 1;
        }
        i = i + 1;
    }
    assert(bytes@.take(i as int) =~= bytes@);
    count <= PRETTY_BRACKET_LIMIT
}

/// The text shown for a response body: when the prettyer may take it, the
/// body indented when it is JSON the prettyer accepts, and otherwise the body
/// as it came, a blank line and the prettyer's error; a body with more
/// opening brackets than the prettyer may take is shown as it came.
pub open spec fn shown_response(text: Seq<char>) -> Seq<char> {
    if !prettyer_can_take(text) {
        text
    } else {
        match prettified(text) {
            Ok(pretty) => pretty,
            Err(e) => text + "\n\n"@ + e,
        }
    }
}

pub fn response_text(prettyer: &mut pretty_goodness::json::PrettyEr, text: String) -> (shown: String)
    ensures
        shown@ == shown_response(text@),
{
    if !within_bracket_limit(text.as_str()) {
        return text;
    }
    match prettyafy(prettyer, &text) {
        Ok(pretty) => pretty,
        Err(err) => {
            let mut full = text;
            full.append("\n\n");
            full.append(err.as_str());
            full
        },
    }
}

} // verus!
