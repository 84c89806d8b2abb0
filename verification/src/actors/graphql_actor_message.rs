use std::time::Duration;
use vstd::prelude::*;

verus! {

/// What a GraphQL POST request is made of, as the user entered it.
pub struct GraphQLPostRequestParams {
    pub address: String,
    pub query: String,
    pub query_variables: String,
    pub http_headers: String,
}

impl GraphQLPostRequestParams {
    pub fn new(address: String, query: String, query_variables: String, http_headers: String) -> (params: Self)
        ensures
            params.address == address,
            params.query == query,
            params.query_variables == query_variables,
            params.http_headers == http_headers,
    {
        Self { address, query, query_variables, http_headers }
    }
}

/// The text shown for a GraphQL request (the response or an error) and the
/// time the request took.
pub struct GraphQLRequestResult {
    result: String,
    duration: Duration,
}

impl GraphQLRequestResult {
    pub closed spec fn result(&self) -> String {
        self.result
    }

    pub closed spec fn duration(&self) -> Duration {
        self.duration
    }

    pub fn new(result: String, duration: Duration) -> (this: Self)
        ensures
            this.result() == result,
            this.duration() == duration,
    {
        Self { result, duration }
    }

    pub fn get_result_ref(&self) -> (result: &String)
        ensures
            *result == self.result(),
    {
        &self.result
    }

    pub fn get_duration(&self) -> (duration: Duration)
        ensures
            duration == self.duration(),
    {
        self.duration
    }
}

} // verus!
