use t1bot::{
    CaptchaConfig, CaptchaQuestion, LinkSpamConfig, ModerationConfig, MonitorConfig, RateLimitConfig,
    RoomConfig, RoomEntry,
};

fn rate(n: i64) -> RateLimitConfig {
    RateLimitConfig {
        token_new: n,
        token_new_max: n,
        token_new_timeout_secs: 60,
        token_join: n,
        token_join_max: n,
        fill_rate: 1,
        fill_freq_secs: 60,
    }
}

fn settings() -> ModerationConfig {
    ModerationConfig {
        monitors: MonitorConfig {
            rate_limit: Some(rate(3)),
            link_spam: None,
            captcha: Some(CaptchaConfig { timeout_secs: 60, questions: vec![] }),
        },
        rooms: vec![
            RoomEntry {
                room_id: "!detail:x.org".to_string(),
                config: RoomConfig::RoomDetail {
                    enabled: true,
                    monitors: MonitorConfig {
                        rate_limit: Some(rate(9)),
                        link_spam: Some(LinkSpamConfig { watch_timeout_secs: 30 }),
                        captcha: Some(CaptchaConfig {
                            timeout_secs: 120,
                            questions: vec![CaptchaQuestion { body: "2+2?".to_string(), answer: 4 }],
                        }),
                    },
                },
            },
            RoomEntry { room_id: "!plain:x.org".to_string(), config: RoomConfig::RoomEnabled(true) },
        ],
    }
}

#[test]
fn room_override_wins() {
    let c = settings();
    let room = "!detail:x.org".to_string();
    assert_eq!(c.rate_limit_for(&room), Some(rate(9)));
    assert_eq!(c.link_spam_for(&room), Some(LinkSpamConfig { watch_timeout_secs: 30 }));
    assert_eq!(c.captcha_for(&room).unwrap().timeout_secs, 120);
}

#[test]
fn global_default_otherwise() {
    let c = settings();
    for room in ["!plain:x.org", "!unknown:x.org"] {
        let room = room.to_string();
        assert_eq!(c.rate_limit_for(&room), Some(rate(3)));
        assert_eq!(c.link_spam_for(&room), None);
        assert_eq!(c.captcha_for(&room).unwrap().timeout_secs, 60);
    }
}
