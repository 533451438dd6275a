use t1bot::{contains_link, LinkSpamConfig, LinkSpamDetector, ViolationKind};

#[test]
fn link_in_watch_window_is_spam() {
    let (mut d, timeout) = LinkSpamDetector::start(Some(LinkSpamConfig { watch_timeout_secs: 30 })).unwrap();
    assert_eq!(timeout, 30);
    let mut violations = 0;
    if d.on_message("look at http://evil.example now") == Some(ViolationKind::Spam) {
        violations += 1;
    }
    assert_eq!(violations, 1);
    assert_eq!(d.on_message("just saying hello"), None);
    d.on_timeout();
    assert!(!d.watching);
    assert_eq!(d.on_message("http://evil.example"), None);
}

#[test]
fn every_link_message_counts() {
    let (d, _) = LinkSpamDetector::start(Some(LinkSpamConfig { watch_timeout_secs: 30 })).unwrap();
    for _ in 0..4 {
        assert_eq!(d.on_message("https://a.example"), Some(ViolationKind::Spam));
    }
}

#[test]
fn link_spam_disabled_without_config() {
    assert!(LinkSpamDetector::start(None).is_none());
}

#[test]
fn link_detection() {
    assert!(contains_link("http://evil.example"));
    assert!(contains_link("see https://x.y/z"));
    assert!(contains_link("ééhttp://"));
    assert!(!contains_link(""));
    assert!(!contains_link("http:/ not a link"));
    assert!(!contains_link("ftp://files.example"));
    assert!(!contains_link("HTTP://shouting.example"));
    assert!(!contains_link("https:"));
}
