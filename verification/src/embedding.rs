//! The embedding request and the token usage that an embedding reports.
use vstd::prelude::*;

verus! {

/// A request for the embedding of `input` by `model`, on behalf of an
/// optional end user. Its JSON leaves `user` out when it is `None`.
pub struct EmbeddingRequest {
    pub model: String,
    pub input: String,
    pub user: Option<String>,
}

impl EmbeddingRequest {
    /// A request with no user.
    pub fn new(model: String, input: String) -> (r: EmbeddingRequest)
        ensures
            r.model@ == model@,
            r.input@ == input@,
            r.user is None,
    {
        EmbeddingRequest { model, input, user: None }
    }

    /// The same request on behalf of `user`.
    pub fn user(self, user: String) -> (r: EmbeddingRequest)
        ensures
            r.model == self.model,
            r.input == self.input,
            r.user == Some(user),
    {
        let mut r = self;
        r.user = Some(user);
        r
    }
}

/// The tokens an embedding used.
pub struct Usage {
    pub prompt_tokens: i32,
    pub total_tokens: i32,
}

} // verus!
