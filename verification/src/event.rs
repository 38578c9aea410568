//! The events that are announced to webhooks, and how each one is rendered.

use vstd::prelude::*;
use vstd::string::*;
use crate::text::{decimal_spec, push_decimal};

verus! {

/// Something that happened on the server and is worth a notification.
#[derive(Clone, Debug, PartialEq, Eq)]
pub enum WebhookEvent {
    ServerStarted,
    ServerStopped,
    ErrorOccurred,
    MapAdded(String),
    MapDeleted(String),
    MapChanged(String),
    KnifeKill {
        killer_id: String,
        killer_name: String,
        victim_id: String,
        victim_name: String,
        killer_score: u32,
        victim_score: u32,
    },
    Custom { title: String, message: String },
}

/// A [`WebhookEvent`] with each text taken by its characters.
pub enum EventView {
    ServerStarted,
    ServerStopped,
    ErrorOccurred,
    MapAdded(Seq<char>),
    MapDeleted(Seq<char>),
    MapChanged(Seq<char>),
    KnifeKill {
        killer_id: Seq<char>,
        killer_name: Seq<char>,
        victim_id: Seq<char>,
        victim_name: Seq<char>,
        killer_score: nat,
        victim_score: nat,
    },
    Custom { title: Seq<char>, message: Seq<char> },
}

/// One structured field of a rendered event.
#[derive(Clone, Debug, PartialEq, Eq)]
pub struct EmbedField {
    pub name: String,
    pub value: String,
    pub inline: bool,
}

/// An [`EmbedField`] with each text taken by its characters.
pub struct EmbedFieldView {
    pub name: Seq<char>,
    pub value: Seq<char>,
    pub inline: bool,
}

impl View for EmbedField {
    type V = EmbedFieldView;

    open spec fn view(&self) -> EmbedFieldView {
        EmbedFieldView { name: self.name@, value: self.value@, inline: self.inline }
    }
}

impl DeepView for EmbedField {
    type V = EmbedFieldView;

    open spec fn deep_view(&self) -> EmbedFieldView {
        self@
    }
}

impl View for WebhookEvent {
    type V = EventView;

    open spec fn view(&self) -> EventView {
        match self {
            WebhookEvent::ServerStarted => EventView::ServerStarted,
            WebhookEvent::ServerStopped => EventView::ServerStopped,
            WebhookEvent::ErrorOccurred => EventView::ErrorOccurred,
            WebhookEvent::MapAdded(name) => EventView::MapAdded(name@),
            WebhookEvent::MapDeleted(name) => EventView::MapDeleted(name@),
            WebhookEvent::MapChanged(name) => EventView::MapChanged(name@),
            WebhookEvent::KnifeKill {
                killer_id,
                killer_name,
                victim_id,
                victim_name,
                killer_score,
                victim_score,
            } => EventView::KnifeKill {
                killer_id: killer_id@,
                killer_name: killer_name@,
                victim_id: victim_id@,
                victim_name: victim_name@,
                killer_score: *killer_score as nat,
                victim_score: *victim_score as nat,
            },
            WebhookEvent::Custom { title, message } => EventView::Custom {
                title: title@,
                message: message@,
            },
        }
    }
}

impl DeepView for WebhookEvent {
    type V = EventView;

    open spec fn deep_view(&self) -> EventView {
        self@
    }
}

impl EventView {
    /// The lowercase identifier by which webhooks subscribe to the event.
    pub open spec fn name(self) -> Seq<char> {
        match self {
            EventView::ServerStarted => "server_started"@,
            EventView::ServerStopped => "server_stopped"@,
            EventView::ErrorOccurred => "error_occurred"@,
            EventView::MapAdded(_) => "map_added"@,
            EventView::MapDeleted(_) => "map_deleted"@,
            EventView::MapChanged(_) => "map_changed"@,
            EventView::KnifeKill { .. } => "knife_kill"@,
            EventView::Custom { .. } => "custom_event"@,
        }
    }

    /// The headline of the notification.
    pub open spec fn title(self) -> Seq<char> {
        match self {
            EventView::ServerStarted => "Servidor Iniciado"@,
            EventView::ServerStopped => "Servidor Parado"@,
            EventView::ErrorOccurred => "Erro no Servidor"@,
            EventView::MapAdded(name) => "Mapa Adicionado: "@ + name,
            EventView::MapDeleted(name) => "Mapa Removido: "@ + name,
            EventView::MapChanged(name) => "Mapa Alterado: "@ + name,
            EventView::KnifeKill { killer_name, victim_name, .. } => "🔪 Morte Vergonhosa: "@
                + killer_name + " x "@ + victim_name,
            EventView::Custom { title, .. } => title,
        }
    }

    /// The body text of the notification.
    pub open spec fn description(self) -> Seq<char> {
        match self {
            EventView::ServerStarted => "Servidor iniciado com sucesso."@,
            EventView::ServerStopped => "Servidor desligado com sucesso."@,
            EventView::ErrorOccurred => "Um erro crítico ocorreu no servidor."@,
            EventView::MapAdded(name) => "O mapa `"@ + name + "` foi adicionado com sucesso."@,
            EventView::MapDeleted(name) => "O mapa `"@ + name + "` foi removido do servidor."@,
            EventView::MapChanged(name) => "O mapa atual foi alterado para `"@ + name + "`."@,
            EventView::KnifeKill { killer_name, victim_name, .. } => "**"@ + killer_name
                + "** matou **"@ + victim_name + "** usando uma faca!"@,
            EventView::Custom { message, .. } => message,
        }
    }

    /// The text of the duel-score field of a knife kill.
    pub open spec fn duel_score(
        killer_name: Seq<char>,
        killer_score: nat,
        victim_score: nat,
        victim_name: Seq<char>,
    ) -> Seq<char> {
        "**"@ + killer_name + "** ("@ + decimal_spec(killer_score) + ") x ("@ + decimal_spec(
            victim_score,
        ) + ") **"@ + victim_name + "**"@
    }

    /// The structured fields of the notification: one for a knife kill,
    /// that sums up the duel, and none for any other event.
    pub open spec fn fields(self) -> Option<Seq<EmbedFieldView>> {
        match self {
            EventView::KnifeKill { killer_name, victim_name, killer_score, victim_score, .. } => {
                Some(
                    seq![
                        EmbedFieldView {
                            name: "⚔️ Placar do duelo"@,
                            value: Self::duel_score(
                                killer_name,
                                killer_score,
                                victim_score,
                                victim_name,
                            ),
                            inline: false,
                        },
                    ],
                )
            },
            _ => None,
        }
    }

    /// The colour code of the notification.
    pub open spec fn color(self) -> u32 {
        match self {
            EventView::ServerStarted => 0x57F287,
            EventView::ServerStopped => 0xED4245,
            EventView::ErrorOccurred => 0xFF0000,
            EventView::MapAdded(_) => 0x00B0F4,
            EventView::MapDeleted(_) => 0xFAA61A,
            EventView::MapChanged(_) => 0x5865F2,
            EventView::KnifeKill { .. } => 0x9b59b6,
            EventView::Custom { .. } => 0xfb7f0c,
        }
    }
}

/// `prefix` followed by `rest`.
fn prefixed(prefix: &str, rest: &str) -> (r: String)
    ensures
        r@ == prefix@ + rest@,
{
    let mut r = String::from_str(prefix);
    r.append(rest);
    r
}

/// `prefix` followed by `middle` followed by `suffix`.
fn wrap(prefix: &str, middle: &str, suffix: &str) -> (r: String)
    ensures
        r@ == prefix@ + middle@ + suffix@,
{
    let mut r = String::from_str(prefix);
    r.append(middle);
    r.append(suffix);
    r
}

impl WebhookEvent {
    /// The lowercase identifier by which webhooks subscribe to the event.
    pub fn name(&self) -> (r: &'static str)
        ensures
            r@ == self@.name(),
    {
        match self {
            Self::ServerStarted => "server_started",
            Self::ServerStopped => "server_stopped",
            Self::ErrorOccurred => "error_occurred",
            Self::MapAdded(_) => "map_added",
            Self::MapDeleted(_) => "map_deleted",
            Self::MapChanged(_) => "map_changed",
            Self::KnifeKill { .. } => "knife_kill",
            Self::Custom { .. } => "custom_event",
        }
    }

    /// The headline of the notification.
    pub fn title(&self) -> (r: String)
        ensures
            r@ == self@.title(),
    {
        match self {
            Self::ServerStarted => String::from_str("Servidor Iniciado"),
            Self::ServerStopped => String::from_str("Servidor Parado"),
            Self::ErrorOccurred => String::from_str("Erro no Servidor"),
            Self::MapAdded(name) => prefixed("Mapa Adicionado: ", name.as_str()),
            Self::MapDeleted(name) => prefixed("Mapa Removido: ", name.as_str()),
            Self::MapChanged(name) => prefixed("Mapa Alterado: ", name.as_str()),
            Self::KnifeKill { killer_name, victim_name, .. } => {
                let mut r = wrap("🔪 Morte Vergonhosa: ", killer_name.as_str(), " x ");
                r.append(victim_name.as_str());
                r
            },
            Self::Custom { title, .. } => title.clone(),
        }
    }

    /// The body text of the notification. It holds no time of day: the
    /// moment of delivery travels beside it.
    pub fn description(&self) -> (r: String)
        ensures
            r@ == self@.description(),
    {
        match self {
            Self::ServerStarted => String::from_str("Servidor iniciado com sucesso."),
            Self::ServerStopped => String::from_str("Servidor desligado com sucesso."),
            Self::ErrorOccurred => String::from_str("Um erro crítico ocorreu no servidor."),
            Self::MapAdded(name) => wrap("O mapa `", name.as_str(), "` foi adicionado com sucesso."),
            Self::MapDeleted(name) => wrap("O mapa `", name.as_str(), "` foi removido do servidor."),
            Self::MapChanged(name) => wrap("O mapa atual foi alterado para `", name.as_str(), "`."),
            Self::KnifeKill { killer_name, victim_name, .. } => {
                let mut r = wrap("**", killer_name.as_str(), "** matou **");
                r.append(victim_name.as_str());
                r.append("** usando uma faca!");
                r
            },
            Self::Custom { message, .. } => message.clone(),
        }
    }

    /// The structured fields of the notification: one for a knife kill,
    /// that sums up the duel, and none for any other event.
    pub fn fields(&self) -> (r: Option<Vec<EmbedField>>)
        ensures
            r.deep_view() == self@.fields(),
    {
        match self {
            Self::KnifeKill { killer_name, victim_name, killer_score, victim_score, .. } => {
                let mut value = wrap("**", killer_name.as_str(), "** (");
                push_decimal(&mut value, *killer_score);
                value.append(") x (");
                push_decimal(&mut value, *victim_score);
                value.append(") **");
                value.append(victim_name.as_str());
                value.append("**");
                let field = EmbedField {
                    name: String::from_str("⚔️ Placar do duelo"),
                    value,
                    inline: false,
                };
                let mut fields: Vec<EmbedField> = Vec::new();
                fields.push(field);
                Some(fields)
            },
            _ => None,
        }
    }

    /// The colour code of the notification.
    pub fn color(&self) -> (c: u32)
        ensures
            c == self@.color(),
    {
        match self {
            Self::ServerStarted => 0x57F287,
            Self::ServerStopped => 0xED4245,
            Self::ErrorOccurred => 0xFF0000,
            Self::MapAdded(_) => 0x00B0F4,
            Self::MapDeleted(_) => 0xFAA61A,
            Self::MapChanged(_) => 0x5865F2,
            Self::KnifeKill { .. } => 0x9b59b6,
            Self::Custom { .. } => 0xfb7f0c,
        }
    }
}

} // verus!
