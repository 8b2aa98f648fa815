//! What can go wrong.

use crate::model::Bc;
use std::sync::Arc;
use vstd::prelude::*;

verus! {

/// The ways in which talking to a camera fails.
#[derive(Debug)]
pub enum Error {
    /// The camera did not grant an ability that a command needs.
    MissingAbility {
        /// The ability.
        name: String,
        /// What was needed of it: `read` or `write`.
        requested: String,
        /// What the camera grants: `none` or `read`.
        actual: String,
    },
    /// The camera answered, but refused the service.
    CameraServiceUnavailable {
        /// The message id of the refusal.
        id: u32,
        /// The response code that it carried.
        code: u16,
    },
    /// The camera answered with something that makes no sense here.
    UnintelligibleReply {
        /// The answer.
        reply: Arc<Bc>,
        /// What was wrong with it.
        why: &'static str,
    },
    /// Every discovery method that was allowed has failed.
    DiscoveryTimeout,
    /// There was no way left to look for the camera.
    CannotInitCamera,
    /// An error of a layer below: a socket, a codec, a relay.
    Other(String),
}

/// Whether `e` reports that `name` was `requested` while only `actual` is
/// granted.
pub open spec fn is_missing_ability(
    e: Error,
    name: Seq<char>,
    requested: Seq<char>,
    actual: Seq<char>,
) -> bool {
    e matches Error::MissingAbility { name: n, requested: r, actual: a } && n@ == name && r@
        == requested && a@ == actual
}

/// A refusal names the ability, what was asked of it and what is granted, each
/// as it was, and nothing else is such a refusal.
pub proof fn law_refusal_says_what_was_missing(
    e: Error,
    name: Seq<char>,
    requested: Seq<char>,
    actual: Seq<char>,
)
    ensures
        is_missing_ability(e, name, requested, actual) ==> e is MissingAbility && e->name@ == name
            && e->requested@ == requested && e->actual@ == actual,
        e is MissingAbility && e->name@ == name && e->requested@ == requested && e->actual@
            == actual ==> is_missing_ability(e, name, requested, actual),
{
}

} // verus!
