use polybot::sources::{is_allowed, pattern_matches};
use polybot::telegram::TelegramBot;
use polybot::types::BotConfig;
use polybot::weather::OpenMeteo;
use polybot::Bot;

#[test]
fn plain_patterns_match_themselves_only() {
    assert!(pattern_matches("91.108.6.66", "91.108.6.66"));
    assert!(!pattern_matches("91.108.6.66", "91.108.6.6"));
    assert!(!pattern_matches("91.108.6.66", "91.108.6.666"));
    assert!(!pattern_matches("91.108.6.66", "91.108.6.67"));
    assert!(pattern_matches("", ""));
    assert!(!pattern_matches("", "a"));
    assert!(!pattern_matches("a", ""));
}

#[test]
fn a_star_matches_any_run() {
    assert!(pattern_matches("91.108.4.*", "91.108.4.0"));
    assert!(pattern_matches("91.108.4.*", "91.108.4.255"));
    assert!(pattern_matches("91.108.4.*", "91.108.4."));
    assert!(!pattern_matches("91.108.4.*", "91.108.40.1"));
    assert!(!pattern_matches("91.108.4.*", "91.108.5.1"));
    assert!(pattern_matches("*", ""));
    assert!(pattern_matches("*", "anything"));
    assert!(pattern_matches("a*b*c", "abc"));
    assert!(pattern_matches("a*b*c", "aXbYbZc"));
    assert!(!pattern_matches("a*b*c", "aXbYbZ"));
    assert!(pattern_matches("**", "x"));
    assert!(pattern_matches("*.1", "10.0.0.1"));
    assert!(!pattern_matches("*.1", "10.0.0.2"));
}

#[test]
fn a_question_mark_matches_one_character() {
    assert!(pattern_matches("149.154.16?.*", "149.154.160.1"));
    assert!(pattern_matches("149.154.16?.*", "149.154.169.77"));
    assert!(!pattern_matches("149.154.16?.*", "149.154.16.1"));
    assert!(!pattern_matches("149.154.16?.*", "149.154.170.1"));
    assert!(!pattern_matches("149.154.16?.*", "149.154.1600.1"));
    assert!(pattern_matches("?", "\u{e9}"));
    assert!(!pattern_matches("?", ""));
    assert!(!pattern_matches("?", "ab"));
    assert!(pattern_matches("?*", "ab"));
}

#[test]
fn only_the_platform_is_let_in() {
    let bot = TelegramBot::new(
        OpenMeteo::new("key".to_string(), "Lisbon".to_string()),
        BotConfig { token: "t".to_string(), default_city: "Lisbon".to_string() },
    );
    let sources = bot.get_webhook_ips();
    for inside in ["91.108.4.1", "91.108.5.200", "91.108.6.66", "91.108.7.0", "149.154.160.9", "149.154.175.255", "149.154.179.1"] {
        assert!(is_allowed(&sources, inside), "{}", inside);
    }
    for outside in ["91.108.8.1", "91.108.3.255", "149.154.159.1", "149.154.180.1", "127.0.0.1", "", "::1"] {
        assert!(!is_allowed(&sources, outside), "{}", outside);
    }
    assert!(!is_allowed(&Vec::new(), "91.108.4.1"));
}
