use pie::github::{webhook_plan, WebhookAction};

#[test]
fn ping_is_answered_in_kind() {
    assert_eq!(webhook_plan("ping", ""), WebhookAction::Pong);
}

#[test]
fn push_deploys_the_named_repository() {
    let body = r#"{"repository": {"full_name": "beni69/pie", "hooks_url": "h"}}"#;
    assert_eq!(
        webhook_plan("push", body),
        WebhookAction::Deploy(String::from("beni69/pie"))
    );
}

#[test]
fn push_without_a_name_is_invalid() {
    assert_eq!(webhook_plan("push", "junk"), WebhookAction::Invalid);
    assert_eq!(
        webhook_plan("push", r#"{"repository": {}}"#),
        WebhookAction::Invalid
    );
    assert_eq!(
        webhook_plan("push", r#"{"repository": {"full_name": 3}}"#),
        WebhookAction::Invalid
    );
}

#[test]
fn other_events_are_not_served() {
    assert_eq!(webhook_plan("issues", "{}"), WebhookAction::Unknown);
    assert_eq!(webhook_plan("", ""), WebhookAction::Unknown);
}
