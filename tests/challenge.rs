use t1bot::{
    answer_glyph, challenge_html, challenge_text, choose_question, compose_challenge, draw_question, option_glyphs,
    CaptchaConfig, CaptchaQuestion, ChallengeMonitor, ChallengePhase, ViolationKind,
};

fn posted() -> ChallengeMonitor {
    let mut m = ChallengeMonitor::new();
    assert_eq!(m.phase, ChallengePhase::AwaitingPost);
    assert!(m.on_posted("$question".to_string(), 2));
    assert_eq!(m.phase, ChallengePhase::AwaitingAnswer);
    assert_eq!(m.expected_glyph, "2️⃣");
    m
}

fn bank(n: usize) -> CaptchaConfig {
    CaptchaConfig {
        timeout_secs: 300,
        questions: (0..n)
            .map(|i| CaptchaQuestion { body: format!("question {i}"), answer: 1 })
            .collect(),
    }
}

#[test]
fn right_answer_redacts_without_violation() {
    let mut m = posted();
    let s = m.on_reaction(&"$question".to_string(), &"2️⃣".to_string());
    assert_eq!(s.violation, None);
    assert_eq!(s.redact.as_deref(), Some("$question"));
    assert!(s.terminate);
    assert_eq!(m.phase, ChallengePhase::Finished);
    assert_eq!(m.posted_event_id, None);
}

#[test]
fn wrong_answer_is_likely_bot() {
    let mut m = posted();
    let s = m.on_reaction(&"$question".to_string(), &"3️⃣".to_string());
    assert_eq!(s.violation, Some(ViolationKind::LikelyBot));
    assert_eq!(s.redact.as_deref(), Some("$question"));
    assert!(s.terminate);
    assert_eq!(m.posted_event_id, None);
}

#[test]
fn reaction_on_other_event_is_ignored() {
    let mut m = posted();
    let s = m.on_reaction(&"$other".to_string(), &"3️⃣".to_string());
    assert_eq!(s.violation, None);
    assert_eq!(s.redact, None);
    assert!(!s.terminate);
    assert_eq!(m.phase, ChallengePhase::AwaitingAnswer);
    assert_eq!(m.posted_event_id.as_deref(), Some("$question"));
}

#[test]
fn timeout_is_likely_bot() {
    let mut m = posted();
    let s = m.on_timeout();
    assert_eq!(s.violation, Some(ViolationKind::LikelyBot));
    assert_eq!(s.redact.as_deref(), Some("$question"));
    assert!(s.terminate);
    let again = m.on_timeout();
    assert_eq!(again.violation, None);
    assert_eq!(again.redact, None);
}

#[test]
fn timeout_before_post_does_nothing() {
    let mut m = ChallengeMonitor::new();
    let s = m.on_timeout();
    assert_eq!(s.violation, None);
    assert!(!s.terminate);
    assert_eq!(m.phase, ChallengePhase::AwaitingPost);
}

#[test]
fn stop_redacts_outstanding_question() {
    let mut m = posted();
    assert_eq!(m.on_stop().as_deref(), Some("$question"));
    assert_eq!(m.phase, ChallengePhase::Finished);
    assert_eq!(m.on_stop(), None);
}

#[test]
fn no_second_question_mid_flight() {
    let mut m = posted();
    assert!(!m.on_posted("$again".to_string(), 4));
    assert_eq!(m.posted_event_id.as_deref(), Some("$question"));
    assert_eq!(m.expected_glyph, "2️⃣");
}

#[test]
fn glyphs() {
    assert_eq!(answer_glyph(1), "1️⃣");
    assert_eq!(answer_glyph(5), "5️⃣");
    assert_eq!(answer_glyph(0), "*️⃣");
    assert_eq!(answer_glyph(9), "*️⃣");
    assert_eq!(option_glyphs(), vec!["1️⃣", "2️⃣", "3️⃣", "4️⃣", "5️⃣"]);
}

#[test]
fn challenge_message_text() {
    assert_eq!(challenge_text("Alice", "What is 1+1?"), "Alice: What is 1+1?");
    assert_eq!(
        challenge_html("https://matrix.to/#/@alice:x.org", "Alice", "What is 1+1?"),
        "<a href='https://matrix.to/#/@alice:x.org'>Alice</a>: What is 1+1?"
    );
}

#[test]
fn question_choice() {
    assert_eq!(choose_question(None, 7), None);
    assert_eq!(choose_question(Some(&bank(0)), 7), None);
    assert_eq!(choose_question(Some(&bank(3)), 7), Some(1));
    assert_eq!(choose_question(Some(&bank(3)), u32::MAX), Some((u32::MAX % 3) as usize));
}

#[test]
fn drawn_question_is_in_the_bank() {
    assert_eq!(draw_question(None), None);
    assert_eq!(draw_question(Some(&bank(0))), None);
    for _ in 0..20 {
        let i = draw_question(Some(&bank(4))).unwrap();
        assert!(i < 4);
    }
}

#[test]
fn composed_challenge_uses_profile_name() {
    let m = compose_challenge("@alice:x.org", Some("Alice".to_string()), "What is 1+1?").unwrap();
    assert_eq!(m.text, "Alice: What is 1+1?");
    assert_eq!(m.html, "<a href='https://matrix.to/#/@alice:x.org'>Alice</a>: What is 1+1?");
}

#[test]
fn composed_challenge_falls_back_to_localpart() {
    let m = compose_challenge("@bob:x.org", None, "Pick 3").unwrap();
    assert_eq!(m.text, "bob: Pick 3");
    assert_eq!(m.html, "<a href='https://matrix.to/#/@bob:x.org'>bob</a>: Pick 3");
    assert!(compose_challenge("bob", None, "Pick 3").is_none());
}
