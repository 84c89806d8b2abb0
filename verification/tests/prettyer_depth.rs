use pretty_goodness::json::PrettyEr;
use req_it_gui::actors::graphql_actor::{response_text, within_bracket_limit, PRETTY_BRACKET_LIMIT};

fn nested(depth: usize) -> String {
    let mut text = String::new();
    for i in 0..depth {
        if i % 2 == 0 {
            text.push_str("{\"a\":");
        } else {
            text.push('[');
        }
    }
    text.push('1');
    for i in (0..depth).rev() {
        if i % 2 == 0 {
            text.push('}');
        } else {
            text.push(']');
        }
    }
    text
}

fn shown_in_full(text: &str) -> String {
    match PrettyEr::new().prettyafy(&text.to_string()) {
        Ok(pretty) => pretty,
        Err(err) => format!("{}\n\n{}", text, err.to_string()),
    }
}

#[test]
fn prettyer_takes_twice_the_bracket_limit_in_depth() {
    let text = nested(2 * PRETTY_BRACKET_LIMIT);
    let _ = PrettyEr::new().prettyafy(&text);
}

#[test]
fn nesting_at_the_limit_is_prettified() {
    let text = nested(PRETTY_BRACKET_LIMIT);
    assert!(within_bracket_limit(&text));
    let expected = shown_in_full(&text);
    assert_eq!(response_text(&mut PrettyEr::new(), text), expected);
}

#[test]
fn array_of_many_small_objects_within_the_limit_is_prettified() {
    let text = format!("[{}]", vec!["{\"id\":1}"; 500].join(","));
    let expected = shown_in_full(&text);
    assert_eq!(response_text(&mut PrettyEr::new(), text), expected);
}
