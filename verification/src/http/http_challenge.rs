//! The HTTP-01 responder: what is served under a token.

use crate::store::ChallengeStore;
use vstd::prelude::*;

verus! {

/// The answer to a request for a token.
pub enum ChallengeAnswer {
    /// The key authorization that was published under the token; the
    /// answer is OK.
    Found { contents: String },
    /// Nothing was published under the token; the answer is Not Found.
    NotFound,
}

/// Answers the request for `token` from the store: with exactly what was
/// published under the token, or with Not Found.
pub fn run(token: &str, store: &ChallengeStore) -> (answer: ChallengeAnswer)
    ensures
        match answer {
            ChallengeAnswer::Found { contents } => store@.contains_key(token@) && store@[token@]
                == contents@,
            ChallengeAnswer::NotFound => !store@.contains_key(token@),
        },
{
    match store.get(token) {
        Some(contents) => ChallengeAnswer::Found { contents },
        None => ChallengeAnswer::NotFound,
    }
}

} // verus!
