use vstd::prelude::*;

use crate::actors::graphql_actor_message::GraphQLPostRequestParams;
use crate::actors::render::{decimal, push_decimal};

verus! {

/// How long a request took, as the tab shows it: the milliseconds in decimal
/// followed by " ms".
pub fn duration_text(millis: u128) -> (text: String)
    ensures
        text@ == decimal(millis as nat) + " ms"@,
{
    let mut text = String::new();
    push_decimal(&mut text, millis);
    text.append(" ms");
    text
}

pub const NO_TIME: &'static str = "N/A";

pub const RESULTS_PLACEHOLDER: &'static str = "results_text";

/// The request the Run button sends: none while a request is running, and
/// otherwise one made of the four fields as the user entered them.
pub open spec fn run_request_for(
    pending: bool,
    address: String,
    query: String,
    query_variables: String,
    http_headers: String,
) -> Option<GraphQLPostRequestParams> {
    if pending {
        None
    } else {
        Some(GraphQLPostRequestParams { address, query, query_variables, http_headers })
    }
}

/// The tab after its request was handed to the actor: the request runs when
/// the hand-over succeeded, and otherwise the hand-over's error is shown.
pub open spec fn after_sent(tab: GraphQLTabModel, outcome: Result<(), String>) -> GraphQLTabModel {
    match outcome {
        Ok(()) => GraphQLTabModel { request_pending: true, ..tab },
        Err(text) => GraphQLTabModel { results_text: text, ..tab },
    }
}

/// What one poll of the running request found.
pub enum RequestPoll {
    /// The actor's answer: the time the request took, in milliseconds, and
    /// the text to show.
    Finished(u128, String),
    /// No answer yet.
    Waiting,
    /// The actor dropped its end without answering; the text of that error.
    Closed(String),
}

/// The GraphQL tab's state: whether a request is running, and the texts of
/// its time label and results view.
pub struct GraphQLTabModel {
    pub request_pending: bool,
    pub time_text: String,
    pub results_text: String,
}

impl GraphQLTabModel {
    /// A new tab: no request running, no time, and the placeholder results.
    pub fn new() -> (tab: Self)
        ensures
            !tab.request_pending,
            tab.time_text@ == NO_TIME@,
            tab.results_text@ == RESULTS_PLACEHOLDER@,
    {
        GraphQLTabModel {
            request_pending: false,
            time_text: String::from_str(NO_TIME),
            results_text: String::from_str(RESULTS_PLACEHOLDER),
        }
    }

    /// The Run button: a request is sent only when none is running.
    pub fn run_clicked(&self) -> (send: bool)
        ensures
            send == !self.request_pending,
    {
        !self.request_pending
    }

    /// The request the Run button sends for the four fields the user entered.
    pub fn run_request(
        &self,
        address: String,
        query: String,
        query_variables: String,
        http_headers: String,
    ) -> (request: Option<GraphQLPostRequestParams>)
        ensures
            request == run_request_for(
                self.request_pending,
                address,
                query,
                query_variables,
                http_headers,
            ),
    {
        if self.run_clicked() {
            Some(GraphQLPostRequestParams::new(address, query, query_variables, http_headers))
        } else {
            None
        }
    }

    /// After the request was handed to the actor: it is running when the
    /// hand-over succeeded, and otherwise the error is shown in its place.
    pub fn request_sent(&mut self, outcome: Result<(), String>)
        ensures
            *final(self) == after_sent(*old(self), outcome),
    {
        match outcome {
            Ok(()) => {
                self.request_pending = true;
            },
            Err(text) => {
                self.results_text = text;
            },
        }
    }

    /// One poll of the running request; whether to poll again. An answer is
    /// shown with its time; a dropped actor shows no time and the error; both
    /// end the request. Without an answer the tab keeps waiting, and without a
    /// running request there is nothing to poll.
    pub fn poll(&mut self, polled: RequestPoll) -> (keep: bool)
        ensures
            !old(self).request_pending ==> !keep && *final(self) == *old(self),
            old(self).request_pending ==> match polled {
                RequestPoll::Waiting => keep && *final(self) == *old(self),
                RequestPoll::Finished(millis, text) => {
                    &&& !keep
                    &&& !final(self).request_pending
                    &&& final(self).time_text@ == decimal(millis as nat) + " ms"@
                    &&& final(self).results_text == text
                },
                RequestPoll::Closed(error) => {
                    &&& !keep
                    &&& !final(self).request_pending
                    &&& final(self).time_text@ == NO_TIME@
                    &&& final(self).results_text == error
                },
            },
    {
        if !self.request_pending {
            return false;
        }
        match polled {
            RequestPoll::Waiting => true,
            RequestPoll::Finished(millis, text) => {
                self.time_text = duration_text(millis);
                self.results_text = text;
                self.request_pending = false;
                false
            },
            RequestPoll::Closed(error) => {
                self.time_text = String::from_str(NO_TIME);
                self.results_text = error;
                self.request_pending = false;
                false
            },
        }
    }
}

/// Running a request: while one runs, the Run button sends nothing and the
/// tab stays as it is; otherwise it sends exactly one request made of the four
/// fields, and after the hand-over the request runs, or the hand-over's error
/// is shown and no request runs.
pub proof fn lemma_run_sends_one_request(
    tab: GraphQLTabModel,
    address: String,
    query: String,
    query_variables: String,
    http_headers: String,
    outcome: Result<(), String>,
)
    ensures
        tab.request_pending ==> run_request_for(
            tab.request_pending,
            address,
            query,
            query_variables,
            http_headers,
        ) is None,
        !tab.request_pending ==> run_request_for(
            tab.request_pending,
            address,
            query,
            query_variables,
            http_headers,
        ) == Some(GraphQLPostRequestParams { address, query, query_variables, http_headers }),
        !tab.request_pending ==> match outcome {
            Ok(()) => {
                &&& after_sent(tab, outcome).request_pending
                &&& after_sent(tab, outcome).results_text == tab.results_text
                &&& after_sent(tab, outcome).time_text == tab.time_text
            },
            Err(text) => {
                &&& !after_sent(tab, outcome).request_pending
                &&& after_sent(tab, outcome).results_text == text
                &&& after_sent(tab, outcome).time_text == tab.time_text
            },
        },
{
}

} // verus!
