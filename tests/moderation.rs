use t1bot::{kick_reason, moderate, UserRoomId, Violation, ViolationKind};

#[test]
fn unresolved_room_is_a_no_op() {
    let v = Violation::new(
        &UserRoomId::new("@alice:x.org".to_string(), "!gone:x.org".to_string()),
        ViolationKind::Spam,
    );
    assert!(moderate(&v, false).is_none());
}

#[test]
fn violation_becomes_kick() {
    let v = Violation::new(
        &UserRoomId::new("@alice:x.org".to_string(), "!room:x.org".to_string()),
        ViolationKind::LikelyBot,
    );
    let k = moderate(&v, true).unwrap();
    assert_eq!(k.user_id, "@alice:x.org");
    assert_eq!(k.room_id, "!room:x.org");
    assert_eq!(k.reason, "LikelyBot");
    assert_eq!(kick_reason(ViolationKind::Spam), "Spam");
}
