//! One unit of asynchronous work, handed from the command loop to the
//! worker loop. It carries everything the worker needs, so it can be
//! processed independently of the snapshot that raised it.

use vstd::prelude::*;

verus! {

pub enum Request {
    /// Run the authorization flow, then feed the carried command back into
    /// the command loop.
    Authorization(String),
    /// Fetch the history of the channel with the carried identifier.
    GetConversationHistory(String),
    /// Fetch the replies of the currently opened thread.
    GetConversationReplies,
}

pub open spec fn request_equal(a: Request, b: Request) -> bool {
    match (a, b) {
        (Request::Authorization(x), Request::Authorization(y)) => x@ == y@,
        (Request::GetConversationHistory(x), Request::GetConversationHistory(y)) => x@ == y@,
        (Request::GetConversationReplies, Request::GetConversationReplies) => true,
        _ => false,
    }
}

pub open spec fn opt_request_equal(a: Option<Request>, b: Option<Request>) -> bool {
    match (a, b) {
        (Option::None, Option::None) => true,
        (Option::Some(x), Option::Some(y)) => request_equal(x, y),
        _ => false,
    }
}

impl Clone for Request {
    fn clone(&self) -> (res: Self)
        ensures
            request_equal(res, *self),
    {
        match self {
            Request::Authorization(s) => Request::Authorization(s.clone()),
            Request::GetConversationHistory(s) => Request::GetConversationHistory(s.clone()),
            Request::GetConversationReplies => Request::GetConversationReplies,
        }
    }
}

} // verus!
