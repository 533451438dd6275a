use vstd::prelude::*;

verus! {

/// The (user, room) pair that a monitor group watches.
#[derive(Clone, Debug)]
pub struct UserRoomId {
    pub user_id: String,
    pub room_id: String,
}

/// The registry key of a pair: the user id, a slash, the room id.
pub open spec fn key_of(user: Seq<char>, room: Seq<char>) -> Seq<char> {
    user + seq!['/'] + room
}

impl UserRoomId {
    pub open spec fn key_view(&self) -> Seq<char> {
        key_of(self.user_id@, self.room_id@)
    }

    pub fn new(user_id: String, room_id: String) -> (r: UserRoomId)
        ensures
            r.user_id@ == user_id@,
            r.room_id@ == room_id@,
    {
        UserRoomId { user_id, room_id }
    }

    /// A field-by-field copy.
    pub fn copied(&self) -> (r: UserRoomId)
        ensures
            r.user_id@ == self.user_id@,
            r.room_id@ == self.room_id@,
    {
        UserRoomId { user_id: self.user_id.clone(), room_id: self.room_id.clone() }
    }

    /// The stable string form used as the key of a monitor group.
    pub fn key(&self) -> (r: String)
        ensures
            r@ == self.key_view(),
    {
        let mut s = self.user_id.clone();
        s.append("/");
        proof {
            reveal_strlit("/");
        }
        s.append(self.room_id.as_str());
        s
    }
}

/// What a monitor found a user doing.
#[derive(Clone, Copy, Debug, PartialEq, Eq, Structural)]
pub enum ViolationKind {
    Spam,
    LikelyBot,
}

/// A breach of policy by the user of `target`, to be turned into an action.
#[derive(Clone, Debug)]
pub struct Violation {
    pub target: UserRoomId,
    pub kind: ViolationKind,
}

impl Violation {
    /// A violation of kind `kind` by the user of `target`.
    pub fn new(target: &UserRoomId, kind: ViolationKind) -> (r: Violation)
        ensures
            r.target.user_id@ == target.user_id@,
            r.target.room_id@ == target.room_id@,
            r.kind == kind,
    {
        Violation { target: target.copied(), kind }
    }
}

} // verus!
