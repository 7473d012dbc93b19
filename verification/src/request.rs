//! From a command to the request that is sent for it.

use vstd::prelude::*;
use crate::body::{merged, pairs_map, JsonBody};
use crate::command::SubCommand;
use crate::url::is_absolute_url;

verus! {

/// The HTTP method of a request.
#[derive(Clone, Copy, Debug, PartialEq, Eq, Structural)]
pub enum Method {
    Get,
    Post,
}

/// One request, ready to be sent: where to, how, and with which JSON object as
/// its body. A request with a body is sent as `application/json`.
#[derive(Debug)]
pub struct RequestPlan {
    pub method: Method,
    pub url: String,
    pub body: Option<JsonBody>,
}

/// The request for a command. `get` sends no body. `post` sends its pairs as
/// one JSON object in which each key stands once, with the value of the last
/// pair that names it.
pub fn plan_request(command: &SubCommand) -> (plan: RequestPlan)
    ensures
        is_absolute_url(plan.url@),
        match command {
            SubCommand::Get(get) => {
                &&& plan.method == Method::Get
                &&& plan.url@ == get.url_view()
                &&& plan.body is None
            },
            SubCommand::Post(post) => {
                &&& plan.method == Method::Post
                &&& plan.url@ == post.url_view()
                &&& plan.body matches Some(body)
                &&& body@ == pairs_map(post.body_view())
                &&& body.entry_views() == merged(post.body_view())
            },
        },
{
    match command {
        SubCommand::Get(get) => RequestPlan {
            method: Method::Get,
            url: get.url().to_owned(),
            body: None,
        },
        SubCommand::Post(post) => RequestPlan {
            method: Method::Post,
            url: post.url().to_owned(),
            body: Some(JsonBody::from_pairs(post.body())),
        },
    }
}

} // verus!
