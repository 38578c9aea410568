use canalhas_manager::event::{EmbedField, WebhookEvent};

fn knife_kill(killer_score: u32, victim_score: u32) -> WebhookEvent {
    WebhookEvent::KnifeKill {
        killer_id: "1".to_string(),
        killer_name: "Alice".to_string(),
        victim_id: "2".to_string(),
        victim_name: "Bob".to_string(),
        killer_score,
        victim_score,
    }
}

fn custom() -> WebhookEvent {
    WebhookEvent::Custom { title: "Aviso".to_string(), message: "Olá, mundo".to_string() }
}

#[test]
fn names_are_the_subscription_identifiers() {
    assert_eq!(WebhookEvent::ServerStarted.name(), "server_started");
    assert_eq!(WebhookEvent::ServerStopped.name(), "server_stopped");
    assert_eq!(WebhookEvent::ErrorOccurred.name(), "error_occurred");
    assert_eq!(WebhookEvent::MapAdded("x".to_string()).name(), "map_added");
    assert_eq!(WebhookEvent::MapDeleted("x".to_string()).name(), "map_deleted");
    assert_eq!(WebhookEvent::MapChanged("x".to_string()).name(), "map_changed");
    assert_eq!(knife_kill(1, 0).name(), "knife_kill");
    assert_eq!(custom().name(), "custom_event");
}

#[test]
fn titles_are_rendered() {
    assert_eq!(WebhookEvent::ServerStarted.title(), "Servidor Iniciado");
    assert_eq!(WebhookEvent::ServerStopped.title(), "Servidor Parado");
    assert_eq!(WebhookEvent::ErrorOccurred.title(), "Erro no Servidor");
    assert_eq!(WebhookEvent::MapAdded("de_dust2".to_string()).title(), "Mapa Adicionado: de_dust2");
    assert_eq!(WebhookEvent::MapDeleted("de_dust2".to_string()).title(), "Mapa Removido: de_dust2");
    assert_eq!(WebhookEvent::MapChanged("de_dust2".to_string()).title(), "Mapa Alterado: de_dust2");
    assert_eq!(knife_kill(1, 0).title(), "🔪 Morte Vergonhosa: Alice x Bob");
    assert_eq!(custom().title(), "Aviso");
    assert_eq!(WebhookEvent::MapAdded(String::new()).title(), "Mapa Adicionado: ");
}

#[test]
fn descriptions_are_rendered() {
    assert_eq!(WebhookEvent::ServerStarted.description(), "Servidor iniciado com sucesso.");
    assert_eq!(WebhookEvent::ServerStopped.description(), "Servidor desligado com sucesso.");
    assert_eq!(WebhookEvent::ErrorOccurred.description(), "Um erro crítico ocorreu no servidor.");
    assert_eq!(
        WebhookEvent::MapAdded("de_dust2".to_string()).description(),
        "O mapa `de_dust2` foi adicionado com sucesso."
    );
    assert_eq!(
        WebhookEvent::MapDeleted("de_dust2".to_string()).description(),
        "O mapa `de_dust2` foi removido do servidor."
    );
    assert_eq!(
        WebhookEvent::MapChanged("de_dust2".to_string()).description(),
        "O mapa atual foi alterado para `de_dust2`."
    );
    assert_eq!(knife_kill(1, 0).description(), "**Alice** matou **Bob** usando uma faca!");
    assert_eq!(custom().description(), "Olá, mundo");
}

#[test]
fn description_is_the_same_at_any_time() {
    let event = WebhookEvent::ServerStarted;
    assert_eq!(event.description(), event.description());
    let kill = knife_kill(3, 4);
    assert_eq!(kill.description(), kill.clone().description());
}

#[test]
fn only_a_knife_kill_has_a_field() {
    assert_eq!(WebhookEvent::ServerStarted.fields(), None);
    assert_eq!(WebhookEvent::ServerStopped.fields(), None);
    assert_eq!(WebhookEvent::ErrorOccurred.fields(), None);
    assert_eq!(WebhookEvent::MapAdded("x".to_string()).fields(), None);
    assert_eq!(WebhookEvent::MapDeleted("x".to_string()).fields(), None);
    assert_eq!(WebhookEvent::MapChanged("x".to_string()).fields(), None);
    assert_eq!(custom().fields(), None);
    assert_eq!(
        knife_kill(12, 0).fields(),
        Some(vec![EmbedField {
            name: "⚔️ Placar do duelo".to_string(),
            value: "**Alice** (12) x (0) **Bob**".to_string(),
            inline: false,
        }])
    );
}

#[test]
fn duel_score_holds_the_largest_counts() {
    let fields = knife_kill(u32::MAX, 1_000_000).fields().unwrap();
    assert_eq!(fields.len(), 1);
    assert_eq!(fields[0].value, "**Alice** (4294967295) x (1000000) **Bob**");
    assert_eq!(fields[0].value, format!("**{}** ({}) x ({}) **{}**", "Alice", u32::MAX, 1_000_000, "Bob"));
}

#[test]
fn colors_are_fixed_for_each_kind() {
    assert_eq!(WebhookEvent::ServerStarted.color(), 0x57F287);
    assert_eq!(WebhookEvent::ServerStopped.color(), 0xED4245);
    assert_eq!(WebhookEvent::ErrorOccurred.color(), 0xFF0000);
    assert_eq!(WebhookEvent::MapAdded("x".to_string()).color(), 0x00B0F4);
    assert_eq!(WebhookEvent::MapDeleted("x".to_string()).color(), 0xFAA61A);
    assert_eq!(WebhookEvent::MapChanged("x".to_string()).color(), 0x5865F2);
    assert_eq!(knife_kill(1, 0).color(), 0x9b59b6);
    assert_eq!(custom().color(), 0xfb7f0c);
    assert_eq!(WebhookEvent::ServerStarted.color(), 5763719);
}
