use chat_gateway::ids::WebhookId;
use chat_gateway::rest::parse_webhook_url;

#[test]
fn parse_webhook_id() {
    assert_eq!(
        parse_webhook_url("https://discord.com/api/webhooks/123").unwrap(),
        (WebhookId(123), None)
    );
    assert!(parse_webhook_url("https://discord.com/foo/bar/456").is_err());
    assert!(parse_webhook_url("https://discord.com/api/webhooks/").is_err());
}

#[test]
fn parse_webhook_token() {
    assert_eq!(
        parse_webhook_url("https://discord.com/api/webhooks/456/token").unwrap(),
        (WebhookId(456), Some(b"token".to_vec()))
    );

    assert_eq!(
        parse_webhook_url("https://discord.com/api/webhooks/456/token/slack").unwrap(),
        (WebhookId(456), Some(b"token".to_vec()))
    );
}

#[test]
fn parse_webhook_rejects_junk() {
    assert!(parse_webhook_url("not a url").is_err());
    assert!(parse_webhook_url("https://discord.com/api/webhooks/abc/token").is_err());
    assert!(parse_webhook_url("https://example.org/api/other/1").is_err());
}

#[test]
fn parse_webhook_any_host() {
    assert_eq!(
        parse_webhook_url("https://h.example/api/webhooks/9000/tok").unwrap(),
        (WebhookId(9000), Some(b"tok".to_vec()))
    );
}
