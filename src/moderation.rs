use vstd::prelude::*;

use crate::identity::{Violation, ViolationKind};

verus! {

/// The reason given with a kick, named after the violation.
pub open spec fn reason_of(kind: ViolationKind) -> Seq<char> {
    match kind {
        ViolationKind::Spam => "Spam"@,
        ViolationKind::LikelyBot => "LikelyBot"@,
    }
}

/// The reason text of a violation kind.
pub fn kick_reason(kind: ViolationKind) -> (r: String)
    ensures
        r@ == reason_of(kind),
{
    match kind {
        ViolationKind::Spam => String::from_str("Spam"),
        ViolationKind::LikelyBot => String::from_str("LikelyBot"),
    }
}

/// A kick of a user from a room.
#[derive(Clone, Debug)]
pub struct KickOrder {
    pub user_id: String,
    pub room_id: String,
    pub reason: String,
}

/// Turns a violation into a kick. When the room of the violation cannot be
/// resolved any more (left or deleted), nothing is done. Kinds are never
/// escalated: every violation gives a kick.
pub fn moderate(violation: &Violation, room_resolves: bool) -> (r: Option<KickOrder>)
    ensures
        !room_resolves ==> r is None,
        room_resolves ==> (r matches Some(k) && {
            &&& k.user_id@ == violation.target.user_id@
            &&& k.room_id@ == violation.target.room_id@
            &&& k.reason@ == reason_of(violation.kind)
        }),
{
    if !room_resolves {
        return None;
    }
    Some(
        KickOrder {
            user_id: violation.target.user_id.clone(),
            room_id: violation.target.room_id.clone(),
            reason: kick_reason(violation.kind),
        },
    )
}

} // verus!
