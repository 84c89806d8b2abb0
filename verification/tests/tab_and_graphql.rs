use req_it_gui::actors::graphql_actor::{
    plan_request, response_text, within_bracket_limit, ERROR_VARIABLES_NOT_AN_OBJECT,
    PRETTY_BRACKET_LIMIT,
};
use req_it_gui::actors::graphql_actor_message::{GraphQLPostRequestParams, GraphQLRequestResult};
use req_it_gui::actors::web_socket_actor_messages::{
    ReadFrameProcessorActorOutputMessage, SendableText, WebSocketActorInputMessage, WebSocketActorOutputClientMessage,
};
use req_it_gui::actors::web_socket_interactor::web_socket_interactor;
use req_it_gui::graphql_tab_state::{duration_text, GraphQLTabModel, RequestPoll};
use req_it_gui::web_socket_tab_state::{
    ConnectionStatus, MutState, WebSocketTabModel, DEFAULT_ADDRESS, ERROR_NO_ADDRESS, ERROR_WRITE_FRAME_ACTOR_UNREACHABLE,
    RECEIVED_MESSAGES_LIMIT,
};
use std::time::Duration;

fn params(variables: &str) -> GraphQLPostRequestParams {
    GraphQLPostRequestParams::new("http://localhost:8000".to_string(), "{ a }".to_string(), variables.to_string(), String::new())
}

#[test]
fn request_params_and_result() {
    let p = params("{}");
    assert_eq!(p.address, "http://localhost:8000");
    assert_eq!(p.query, "{ a }");
    assert_eq!(p.query_variables, "{}");
    assert_eq!(p.http_headers, "");
    let r = GraphQLRequestResult::new("done".to_string(), Duration::from_millis(1500));
    assert_eq!(r.get_result_ref(), "done");
    assert_eq!(r.get_duration(), Duration::from_millis(1500));
}

#[test]
fn plan_without_variables() {
    let body = plan_request(params("")).ok().unwrap();
    assert_eq!(body.address, "http://localhost:8000");
    assert_eq!(body.query, "{ a }");
    assert!(body.variables.is_none());
}

#[test]
fn plan_with_object_variables() {
    let body = plan_request(params("{\"id\": 3}")).ok().unwrap();
    assert_eq!(body.variables, Some("{\"id\": 3}".to_string()));
    assert_eq!(body.address, "http://localhost:8000");
    assert_eq!(body.query, "{ a }");
}

#[test]
fn plan_with_non_object_variables() {
    assert_eq!(plan_request(params("[1, 2]")).err().unwrap(), ERROR_VARIABLES_NOT_AN_OBJECT);
}

#[test]
fn plan_with_bad_json() {
    let err = plan_request(params("{oops")).err().unwrap();
    assert_eq!(err, serde_json::from_str::<serde_json::Value>("{oops").unwrap_err().to_string());
}

#[test]
fn response_text_pretty_or_explained() {
    let mut prettyer = pretty_goodness::json::PrettyEr::new();
    let text = "{\"a\":1}".to_string();
    let expected = pretty_goodness::json::PrettyEr::new().prettyafy(&text);
    let shown = response_text(&mut prettyer, text.clone());
    match expected {
        Ok(pretty) => assert_eq!(shown, pretty),
        Err(e) => assert_eq!(shown, format!("{}\n\n{}", text, e.to_string())),
    }
    let bad = "{\"a\":".to_string();
    let expected = pretty_goodness::json::PrettyEr::new().prettyafy(&bad);
    let shown = response_text(&mut prettyer, bad.clone());
    match expected {
        Ok(pretty) => assert_eq!(shown, pretty),
        Err(e) => assert_eq!(shown, format!("{}\n\n{}", bad, e.to_string())),
    }
}

#[test]
fn deeply_nested_response_is_shown_as_it_came() {
    let mut prettyer = pretty_goodness::json::PrettyEr::new();
    let deep = format!("{}{}", "[".repeat(20000), "]".repeat(20000));
    assert!(!within_bracket_limit(&deep));
    assert_eq!(response_text(&mut prettyer, deep.clone()), deep);
}

#[test]
fn bracket_limit_counts_opening_brackets() {
    let at_limit = "{".repeat(PRETTY_BRACKET_LIMIT);
    assert!(within_bracket_limit(&at_limit));
    let over = format!("[{}", at_limit);
    assert!(!within_bracket_limit(&over));
    assert!(within_bracket_limit("\"é}}]]\""));
    assert!(within_bracket_limit(""));
}

#[test]
fn durations_in_milliseconds() {
    assert_eq!(duration_text(0), "0 ms");
    assert_eq!(duration_text(1234), "1234 ms");
    assert_eq!(duration_text(u128::MAX), format!("{} ms", u128::MAX));
}

#[test]
fn status_names_and_predicates() {
    assert_eq!(ConnectionStatus::default(), ConnectionStatus::NotConnected);
    assert_eq!(ConnectionStatus::SwappingConnection.to_string(), "SwappingConnection");
    assert_eq!(ConnectionStatus::Disconnecting.as_str(), "Disconnecting");
    assert!(ConnectionStatus::NotConnected.is_not_connected());
    assert!(ConnectionStatus::Connecting.is_connecting());
    assert!(ConnectionStatus::SwappingConnection.is_swapping_connection());
    assert!(ConnectionStatus::Connected.is_connected());
    assert!(ConnectionStatus::Disconnecting.is_disconnecting());
    assert!(!ConnectionStatus::Connected.is_connecting());
    assert_eq!(MutState::new().connection_status, ConnectionStatus::NotConnected);
}

#[test]
fn new_tab_state() {
    let tab = WebSocketTabModel::new();
    assert_eq!(tab.mut_state.connection_status, ConnectionStatus::NotConnected);
    assert!(tab.controls.connect_sensitive);
    assert!(!tab.controls.send_sensitive);
    assert_eq!(tab.controls.connected_address, DEFAULT_ADDRESS);
    assert_eq!(tab.controls.status_text, "NotConnected");
    assert!(tab.received_messages.is_empty());
}

#[test]
fn connect_click_flow() {
    let mut tab = WebSocketTabModel::new();
    assert!(tab.connect_clicked(String::new()).is_none());
    assert_eq!(tab.received_messages, vec![ERROR_NO_ADDRESS.to_string()]);
    assert_eq!(tab.mut_state.connection_status, ConnectionStatus::NotConnected);
    let request = tab.connect_clicked("ws://a/".to_string());
    assert!(matches!(request, Some(WebSocketActorInputMessage::ConnectTo(a)) if a == "ws://a/"));
    assert_eq!(tab.mut_state.connection_status, ConnectionStatus::Connecting);
    assert!(tab.controls.poller_running);
    assert!(!tab.controls.connect_sensitive);
    assert_eq!(tab.controls.status_text, "Connecting");
    tab.pipeline_output(ReadFrameProcessorActorOutputMessage::ClientMessage(
        WebSocketActorOutputClientMessage::ConnectionSucceed(SendableText::Str("ok!")),
    ));
    assert_eq!(tab.mut_state.connection_status, ConnectionStatus::Connected);
    assert!(tab.controls.send_sensitive);
    assert!(tab.controls.send_ping_sensitive);
    assert_eq!(tab.received_messages[0], "ok!");
    assert!(matches!(tab.connect_clicked("ws://b/".to_string()), Some(_)));
    assert_eq!(tab.mut_state.connection_status, ConnectionStatus::SwappingConnection);
    assert!(!tab.controls.send_sensitive);
}

#[test]
fn disconnect_click_only_when_connected() {
    let mut tab = WebSocketTabModel::new();
    assert!(tab.disconnect_request("ws://a/".to_string()).is_none());
    tab.set_status(ConnectionStatus::Connected);
    assert!(matches!(tab.disconnect_request("ws://a/".to_string()), Some(WebSocketActorInputMessage::ConnectTo(a)) if a == "ws://a/"));
    tab.disconnect_request_outcome(false);
    assert_eq!(tab.received_messages[0], ERROR_WRITE_FRAME_ACTOR_UNREACHABLE);
    assert_eq!(tab.mut_state.connection_status, ConnectionStatus::Connected);
    tab.disconnect_request_outcome(true);
    assert_eq!(tab.mut_state.connection_status, ConnectionStatus::Disconnecting);
    assert!(!tab.controls.connect_sensitive);
    tab.set_status(ConnectionStatus::NotConnected);
    assert!(tab.controls.connect_sensitive);
    assert_eq!(tab.controls.connected_address, "");
    assert_eq!(tab.controls.status_text, "NotConnected");
}

#[test]
fn set_status_twice_changes_nothing_more() {
    let mut tab = WebSocketTabModel::new();
    tab.set_status(ConnectionStatus::Connecting);
    tab.controls.connect_sensitive = true;
    tab.set_status(ConnectionStatus::Connecting);
    assert!(tab.controls.connect_sensitive);
}

#[test]
fn received_messages_are_limited() {
    let mut tab = WebSocketTabModel::new();
    for i in 0..30 {
        tab.pipeline_output(ReadFrameProcessorActorOutputMessage::Processed(format!("m{}", i)));
    }
    assert_eq!(tab.received_messages.len(), RECEIVED_MESSAGES_LIMIT);
    assert_eq!(tab.received_messages[0], "m29");
    assert_eq!(tab.received_messages[RECEIVED_MESSAGES_LIMIT - 1], "m10");
}

#[test]
fn poll_outcomes() {
    let mut tab = WebSocketTabModel::new();
    assert!(tab.poll_outcome(true, false));
    assert!(tab.controls.poller_running);
    assert!(tab.poll_outcome(false, true));
    assert!(!tab.poll_outcome(false, false));
    assert!(!tab.controls.poller_running);
}

#[test]
fn interactor_ends() {
    let (client, server) = web_socket_interactor(4, 8);
    assert_eq!(client.input_sender().max_capacity(), 4);
    assert_eq!(server.output_sender().max_capacity(), 8);
    assert!(client.input_sender().try_send(WebSocketActorInputMessage::Disconnect).is_ok());
    assert_eq!(client.input_sender().capacity(), 3);
    assert!(server.input_receiver().is_empty() == false);
    assert!(client.output_receiver().is_empty());
}

#[test]
fn pipeline_output_on_a_busy_connected_tab() {
    let mut tab = WebSocketTabModel::new();
    tab.connect_clicked("ws://a/".to_string());
    for i in 0..RECEIVED_MESSAGES_LIMIT {
        tab.pipeline_output(ReadFrameProcessorActorOutputMessage::Processed(format!("m{}", i)));
    }
    tab.pipeline_output(ReadFrameProcessorActorOutputMessage::ClientMessage(
        WebSocketActorOutputClientMessage::ConnectionSucceed(SendableText::Str("up")),
    ));
    assert_eq!(tab.mut_state.connection_status, ConnectionStatus::Connected);
    assert_eq!(tab.received_messages.len(), RECEIVED_MESSAGES_LIMIT);
    assert_eq!(tab.received_messages[0], "up");
    assert_eq!(tab.controls.status_text, "Connected");
    // a ping notice is listed and changes nothing else
    let controls_before = (tab.controls.send_sensitive, tab.controls.status_text.clone());
    tab.pipeline_output(ReadFrameProcessorActorOutputMessage::ClientMessage(
        WebSocketActorOutputClientMessage::PingReceived(SendableText::Str("ping")),
    ));
    assert_eq!(tab.mut_state.connection_status, ConnectionStatus::Connected);
    assert_eq!((tab.controls.send_sensitive, tab.controls.status_text.clone()), controls_before);
    assert_eq!(tab.received_messages[0], "ping");
    assert_eq!(tab.received_messages[1], "up");
    // each report about the connection moves the tab and its controls
    tab.pipeline_output(ReadFrameProcessorActorOutputMessage::ClientMessage(
        WebSocketActorOutputClientMessage::Disconnecting(SendableText::Str("closing")),
    ));
    assert_eq!(tab.mut_state.connection_status, ConnectionStatus::Disconnecting);
    assert!(!tab.controls.send_sensitive);
    assert!(!tab.controls.disconnect_sensitive);
    assert_eq!(tab.controls.status_text, "Disconnecting");
    tab.pipeline_output(ReadFrameProcessorActorOutputMessage::ClientMessage(
        WebSocketActorOutputClientMessage::Disconnected(SendableText::Str("gone")),
    ));
    assert_eq!(tab.mut_state.connection_status, ConnectionStatus::NotConnected);
    assert!(tab.controls.connect_sensitive);
    assert!(tab.controls.format_dropdown_sensitive);
    assert_eq!(tab.controls.connected_address, "");
    assert_eq!(tab.controls.status_text, "NotConnected");
    assert_eq!(tab.received_messages.len(), RECEIVED_MESSAGES_LIMIT);
    assert_eq!(tab.received_messages[0], "gone");
}

#[test]
fn graphql_tab_runs_one_request_at_a_time() {
    let mut tab = GraphQLTabModel::new();
    assert!(!tab.request_pending);
    assert_eq!(tab.time_text, "N/A");
    assert_eq!(tab.results_text, "results_text");
    assert!(!tab.poll(RequestPoll::Waiting));
    assert!(tab.run_clicked());
    tab.request_sent(Err("channel closed".to_string()));
    assert!(!tab.request_pending);
    assert_eq!(tab.results_text, "channel closed");
    tab.request_sent(Ok(()));
    assert!(tab.request_pending);
    assert!(!tab.run_clicked());
    assert!(tab.poll(RequestPoll::Waiting));
    assert!(!tab.poll(RequestPoll::Finished(1234, "{ }".to_string())));
    assert!(!tab.request_pending);
    assert_eq!(tab.time_text, "1234 ms");
    assert_eq!(tab.results_text, "{ }");
    tab.request_sent(Ok(()));
    assert!(!tab.poll(RequestPoll::Closed("channel closed".to_string())));
    assert_eq!(tab.time_text, "N/A");
    assert_eq!(tab.results_text, "channel closed");
}

#[test]
fn graphql_run_request_uses_the_four_fields() {
    let mut tab = GraphQLTabModel::new();
    let request = tab
        .run_request("http://h/".to_string(), "{ q }".to_string(), "{}".to_string(), "X: y".to_string())
        .unwrap();
    assert_eq!(request.address, "http://h/");
    assert_eq!(request.query, "{ q }");
    assert_eq!(request.query_variables, "{}");
    assert_eq!(request.http_headers, "X: y");
    tab.request_sent(Ok(()));
    assert!(tab
        .run_request("http://h/".to_string(), "{ q }".to_string(), String::new(), String::new())
        .is_none());
    assert_eq!(tab.results_text, "results_text");
}
