use canalhas_manager::event::{EmbedField, WebhookEvent};
use canalhas_manager::webhook::{
    add_webhook, clone_texts, clone_webhook, emit_event, holds_text, list_webhooks,
    remove_webhook, render_payload, subscriber_urls, Webhook,
};

fn names(list: &[&str]) -> Vec<String> {
    list.iter().map(|s| s.to_string()).collect()
}

fn hook(url: &str, events: &[&str]) -> Webhook {
    Webhook { url: url.to_string(), events: names(events) }
}

#[test]
fn add_appends_in_order() {
    let mut hooks = Vec::new();
    add_webhook(&mut hooks, "https://a".to_string(), names(&["server_started"]));
    add_webhook(&mut hooks, "https://b".to_string(), names(&[]));
    assert_eq!(hooks, vec![hook("https://a", &["server_started"]), hook("https://b", &[])]);
}

#[test]
fn same_url_may_be_registered_twice_and_is_removed_whole() {
    let mut hooks = vec![hook("https://other", &["knife_kill"])];
    add_webhook(&mut hooks, "https://a".to_string(), names(&["server_started"]));
    add_webhook(&mut hooks, "https://a".to_string(), names(&["server_stopped", "knife_kill"]));
    assert_eq!(hooks.len(), 3);
    assert_eq!(hooks[1].events, names(&["server_started"]));
    assert_eq!(hooks[2].events, names(&["server_stopped", "knife_kill"]));
    remove_webhook(&mut hooks, "https://a".to_string());
    assert_eq!(hooks, vec![hook("https://other", &["knife_kill"])]);
}

#[test]
fn remove_of_an_unknown_url_changes_nothing() {
    let mut hooks = vec![hook("https://a", &["x"]), hook("https://b", &["y"])];
    remove_webhook(&mut hooks, "https://A".to_string());
    assert_eq!(hooks, vec![hook("https://a", &["x"]), hook("https://b", &["y"])]);
    let mut none: Vec<Webhook> = Vec::new();
    remove_webhook(&mut none, "https://a".to_string());
    assert!(none.is_empty());
}

#[test]
fn remove_keeps_the_order_of_the_others() {
    let mut hooks = vec![
        hook("https://a", &["1"]),
        hook("https://x", &["2"]),
        hook("https://b", &["3"]),
        hook("https://x", &["4"]),
        hook("https://c", &["5"]),
    ];
    remove_webhook(&mut hooks, "https://x".to_string());
    assert_eq!(
        hooks,
        vec![hook("https://a", &["1"]), hook("https://b", &["3"]), hook("https://c", &["5"])]
    );
}

#[test]
fn list_returns_what_is_registered() {
    let hooks = vec![hook("https://a", &["x", "y"]), hook("https://b", &[])];
    assert_eq!(list_webhooks(&hooks), hooks);
    assert!(list_webhooks(&Vec::new()).is_empty());
    assert_eq!(clone_webhook(&hooks[0]), hooks[0]);
    assert_eq!(clone_texts(&hooks[0].events), hooks[0].events);
}

#[test]
fn holds_text_compares_whole_names() {
    let events = names(&["server_started", "knife_kill"]);
    assert!(holds_text(&events, "knife_kill"));
    assert!(!holds_text(&events, "knife"));
    assert!(!holds_text(&events, "Knife_Kill"));
    assert!(!holds_text(&Vec::new(), "knife_kill"));
}

#[test]
fn event_goes_to_exactly_the_subscribed_endpoints() {
    let hooks = vec![
        hook("https://a", &["server_started", "knife_kill"]),
        hook("https://b", &["server_stopped"]),
        hook("https://c", &["knife_kill"]),
        hook("https://d", &[]),
        hook("https://a", &["knife_kill"]),
    ];
    assert_eq!(
        subscriber_urls(&hooks, "knife_kill"),
        vec!["https://a", "https://c", "https://a"]
    );
    assert_eq!(subscriber_urls(&hooks, "server_stopped"), vec!["https://b"]);
    assert!(subscriber_urls(&hooks, "map_added").is_empty());
    assert!(subscriber_urls(&Vec::new(), "knife_kill").is_empty());
}

#[test]
fn endpoint_subscribed_to_another_name_receives_nothing() {
    let hooks = vec![hook("https://a", &["server_stopped"])];
    let emission = emit_event(&hooks, &WebhookEvent::ServerStarted, "t".to_string());
    assert!(emission.targets.is_empty());
    let emission = emit_event(&hooks, &WebhookEvent::ServerStopped, "t".to_string());
    assert_eq!(emission.targets, vec!["https://a"]);
}

#[test]
fn payload_of_a_plain_event() {
    let payload = render_payload(&WebhookEvent::ServerStarted, "2024-05-01T00:00:00+00:00".to_string());
    assert_eq!(payload.username, "Canalhas Manager");
    assert_eq!(payload.embeds.len(), 1);
    let embed = &payload.embeds[0];
    assert_eq!(embed.title, "Servidor Iniciado");
    assert_eq!(embed.description, "Servidor iniciado com sucesso.");
    assert_eq!(embed.color, 0x57F287);
    assert_eq!(embed.author.name, "Canalhas Manager");
    assert_eq!(embed.author.icon_url, "https://i.imgur.com/fKL31aD.jpg");
    assert_eq!(embed.footer.text, "Canalhas Manager");
    assert_eq!(embed.footer.icon_url, "https://i.imgur.com/fKL31aD.jpg");
    assert_eq!(embed.timestamp, "2024-05-01T00:00:00+00:00");
    assert_eq!(embed.fields, None);
}

#[test]
fn payload_of_a_knife_kill_carries_the_duel_field() {
    let event = WebhookEvent::KnifeKill {
        killer_id: "1".to_string(),
        killer_name: "Alice".to_string(),
        victim_id: "2".to_string(),
        victim_name: "Bob".to_string(),
        killer_score: 2,
        victim_score: 1,
    };
    let hooks = vec![hook("https://k", &["knife_kill"])];
    let emission = emit_event(&hooks, &event, "now".to_string());
    assert_eq!(emission.targets, vec!["https://k"]);
    let embed = &emission.payload.embeds[0];
    assert_eq!(embed.title, "🔪 Morte Vergonhosa: Alice x Bob");
    assert_eq!(embed.color, 0x9b59b6);
    assert_eq!(embed.timestamp, "now");
    assert_eq!(
        embed.fields,
        Some(vec![EmbedField {
            name: "⚔️ Placar do duelo".to_string(),
            value: "**Alice** (2) x (1) **Bob**".to_string(),
            inline: false,
        }])
    );
}
