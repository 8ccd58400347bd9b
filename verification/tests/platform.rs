use polybot::telegram::TelegramBot;
use polybot::types::{BotConfig, Response, SendMessage, SetWebhook, Webhook};
use polybot::weather::OpenMeteo;
use polybot::Bot;

fn bot() -> TelegramBot<OpenMeteo> {
    TelegramBot::new(
        OpenMeteo::new("key".to_string(), "Lisbon".to_string()),
        BotConfig { token: "123:abc".to_string(), default_city: "Lisbon".to_string() },
    )
}

fn report(ok: bool, ip: Option<&str>, custom: bool) -> Response<Webhook> {
    Response {
        ok,
        result: Webhook { ip_address: ip.map(|s| s.to_string()), has_custom_certificate: custom },
    }
}

#[test]
fn the_token_is_kept() {
    assert_eq!(bot().get_token(), "123:abc");
    assert_eq!(bot().weather().favourite_city, "Lisbon");
}

#[test]
fn endpoints_are_built_from_the_token() {
    let bot = bot();
    assert_eq!(bot.method_url("getMe"), "https://api.telegram.org/bot123:abc/getMe");
    assert_eq!(bot.webhook_info_url(), "https://api.telegram.org/bot123:abc/getWebhookInfo");
    assert_eq!(bot.affirmation_url(), "https://affirmations.dev");
}

#[test]
fn a_reply_is_a_json_post() {
    let post = bot().reply(42, "hi");
    assert_eq!(
        post,
        SendMessage {
            url: "https://api.telegram.org/bot123:abc/sendMessage".to_string(),
            body: "{\"chat_id\":42,\"text\":\"hi\"}".to_string(),
        }
    );
}

#[test]
fn a_reply_escapes_its_text() {
    let post = bot().reply(u64::MAX, "a \"b\"\n\\ \u{e9}\u{1}");
    assert_eq!(
        post.body,
        "{\"chat_id\":18446744073709551615,\"text\":\"a \\\"b\\\"\\n\\\\ \u{e9}\\u0001\"}"
    );
    let parsed: serde_json::Value = serde_json::from_str(&post.body).unwrap();
    assert_eq!(parsed["chat_id"].as_u64(), Some(u64::MAX));
    assert_eq!(parsed["text"].as_str(), Some("a \"b\"\n\\ \u{e9}\u{1}"));
}

#[test]
fn a_registration_carries_address_and_certificate() {
    let post = bot().update_webhook_cert(vec![1, 2, 3], "203.0.113.9");
    assert_eq!(
        post,
        SetWebhook {
            url: "https://api.telegram.org/bot123:abc/setWebhook".to_string(),
            webhook_url: "https://203.0.113.9".to_string(),
            file_name: "cert.pem".to_string(),
            certificate: vec![1, 2, 3],
        }
    );
}

#[test]
fn the_webhook_is_configured_only_with_address_and_certificate() {
    let bot = bot();
    assert!(bot.is_webhook_configured(&report(true, Some("203.0.113.9"), true), "203.0.113.9"));
    assert!(!bot.is_webhook_configured(&report(true, Some("203.0.113.9"), false), "203.0.113.9"));
    assert!(!bot.is_webhook_configured(&report(true, Some("203.0.113.8"), true), "203.0.113.9"));
    assert!(!bot.is_webhook_configured(&report(true, None, true), "203.0.113.9"));
    assert!(!bot.is_webhook_configured(&report(false, Some("203.0.113.9"), true), "203.0.113.9"));
    assert!(!bot.is_webhook_configured(&report(false, None, false), "203.0.113.9"));
    assert!(!bot.is_webhook_configured(&report(true, Some(""), true), "203.0.113.9"));
}

#[test]
fn the_sources_of_the_platform_are_listed() {
    assert_eq!(
        bot().get_webhook_ips(),
        vec![
            "91.108.4.*",
            "91.108.5.*",
            "91.108.6.*",
            "91.108.7.*",
            "149.154.16?.*",
            "149.154.17?.*",
            "91.108.6.66",
        ]
    );
}
