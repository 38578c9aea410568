//! Webhook endpoints: who is registered, who is subscribed to what, and
//! what is sent to them.

use vstd::prelude::*;
use vstd::string::*;
use crate::event::{EmbedField, EmbedFieldView, EventView, WebhookEvent};

verus! {

/// An endpoint and the names of the events it wants to hear of. Nothing
/// keeps two endpoints from sharing a URL.
#[derive(Clone, Debug, PartialEq, Eq)]
pub struct Webhook {
    pub url: String,
    pub events: Vec<String>,
}

/// A [`Webhook`] with each text taken by its characters.
pub struct WebhookView {
    pub url: Seq<char>,
    pub events: Seq<Seq<char>>,
}

impl View for Webhook {
    type V = WebhookView;

    open spec fn view(&self) -> WebhookView {
        WebhookView { url: self.url@, events: self.events.deep_view() }
    }
}

impl DeepView for Webhook {
    type V = WebhookView;

    open spec fn deep_view(&self) -> WebhookView {
        self@
    }
}

/// Whether `hook` is subscribed to the event called `name`.
pub open spec fn subscribes(hook: WebhookView, name: Seq<char>) -> bool {
    hook.events.contains(name)
}

/// The endpoints of `hooks` that are subscribed to `name`, in their order.
pub open spec fn subscribers(hooks: Seq<WebhookView>, name: Seq<char>) -> Seq<WebhookView> {
    hooks.filter(|h: WebhookView| subscribes(h, name))
}

/// The endpoints of `hooks` whose URL is not `url`, in their order.
pub open spec fn without_url(hooks: Seq<WebhookView>, url: Seq<char>) -> Seq<WebhookView> {
    hooks.filter(|h: WebhookView| h.url != url)
}

/// The URLs of `hooks`, in their order.
pub open spec fn urls_of(hooks: Seq<WebhookView>) -> Seq<Seq<char>> {
    hooks.map_values(|h: WebhookView| h.url)
}

/// A copy of `texts`.
pub fn clone_texts(texts: &Vec<String>) -> (r: Vec<String>)
    ensures
        r.deep_view() == texts.deep_view(),
{
    let mut r: Vec<String> = Vec::new();
    let mut i: usize = 0;
    while i < texts.len()
        invariant
            i <= texts.len(),
            r.len() == i,
            forall|k: int| 0 <= k < i ==> r[k]@ == texts[k]@,
        decreases texts.len() - i,
    {
        r.push(texts[i].clone());
        i += 1;
    }
    r
}

/// A copy of `hook`.
pub fn clone_webhook(hook: &Webhook) -> (r: Webhook)
    ensures
        r@ == hook@,
{
    Webhook { url: hook.url.clone(), events: clone_texts(&hook.events) }
}

/// Whether `texts` holds `wanted`.
pub fn holds_text(texts: &Vec<String>, wanted: &str) -> (b: bool)
    ensures
        b == texts.deep_view().contains(wanted@),
{
    let mut i: usize = 0;
    while i < texts.len()
        invariant
            i <= texts.len(),
            forall|k: int| 0 <= k < i ==> texts[k]@ != wanted@,
        decreases texts.len() - i,
    {
        if *texts[i].as_str() == *wanted {
            assert(texts.deep_view()[i as int] == wanted@);
            return true;
        }
        i += 1;
    }
    false
}

/// Registers an endpoint at the end of the list, whether or not its URL is
/// registered already.
pub fn add_webhook(hooks: &mut Vec<Webhook>, url: String, events: Vec<String>)
    ensures
        final(hooks).deep_view() == old(hooks).deep_view().push(
            WebhookView { url: url@, events: events.deep_view() },
        ),
{
    hooks.push(Webhook { url, events });
}

/// Removes every endpoint registered under `url`.
pub fn remove_webhook(hooks: &mut Vec<Webhook>, url: String)
    ensures
        final(hooks).deep_view() == without_url(old(hooks).deep_view(), url@),
{
    let ghost all = hooks.deep_view();
    let ghost keep = |h: WebhookView| h.url != url@;
    let mut kept: Vec<Webhook> = Vec::new();
    let mut rest: Vec<Webhook> = Vec::new();
    std::mem::swap(&mut rest, hooks);
    let mut i: usize = 0;
    while i < rest.len()
        invariant
            i <= rest.len(),
            rest.deep_view() == all,
            keep == |h: WebhookView| h.url != url@,
            kept.deep_view() == all.take(i as int).filter(keep),
        decreases rest.len() - i,
    {
        proof {
            assert(all.take(i + 1) =~= all.take(i as int).push(all[i as int]));
            all.take(i as int).lemma_filter_push(all[i as int], keep);
        }
        if *rest[i].url.as_str() != *url.as_str() {
            let hook = clone_webhook(&rest[i]);
            kept.push(hook);
        }
        i += 1;
    }
    assert(all.take(rest.len() as int) =~= all);
    *hooks = kept;
}

/// The registered endpoints.
pub fn list_webhooks(hooks: &Vec<Webhook>) -> (r: Vec<Webhook>)
    ensures
        r.deep_view() == hooks.deep_view(),
{
    let mut r: Vec<Webhook> = Vec::new();
    let mut i: usize = 0;
    while i < hooks.len()
        invariant
            i <= hooks.len(),
            r.len() == i,
            forall|k: int| 0 <= k < i ==> r[k]@ == hooks[k]@,
        decreases hooks.len() - i,
    {
        r.push(clone_webhook(&hooks[i]));
        i += 1;
    }
    r
}

/// The URLs to which an event called `name` is sent: one for each endpoint
/// subscribed to it, in the order of registration.
pub fn subscriber_urls(hooks: &Vec<Webhook>, name: &str) -> (urls: Vec<String>)
    ensures
        urls.deep_view() == urls_of(subscribers(hooks.deep_view(), name@)),
{
    let ghost all = hooks.deep_view();
    let ghost wants = |h: WebhookView| subscribes(h, name@);
    let mut urls: Vec<String> = Vec::new();
    let mut i: usize = 0;
    while i < hooks.len()
        invariant
            i <= hooks.len(),
            hooks.deep_view() == all,
            wants == |h: WebhookView| subscribes(h, name@),
            urls.deep_view() == urls_of(all.take(i as int).filter(wants)),
        decreases hooks.len() - i,
    {
        let ghost before = urls.deep_view();
        proof {
            assert(all.take(i + 1) =~= all.take(i as int).push(all[i as int]));
            all.take(i as int).lemma_filter_push(all[i as int], wants);
        }
        if holds_text(&hooks[i].events, name) {
            let url = hooks[i].url.clone();
            urls.push(url);
            assert(urls_of(all.take(i as int).filter(wants).push(all[i as int])) =~= before.push(
                url@,
            ));
        }
        i += 1;
    }
    assert(all.take(hooks.len() as int) =~= all);
    urls
}

/// Who signs a rendered event.
#[derive(Clone, Debug, PartialEq, Eq)]
pub struct EmbedAuthor {
    pub name: String,
    pub icon_url: String,
}

/// The closing line of a rendered event.
#[derive(Clone, Debug, PartialEq, Eq)]
pub struct EmbedFooter {
    pub text: String,
    pub icon_url: String,
}

/// One event as an endpoint is to show it.
#[derive(Clone, Debug, PartialEq, Eq)]
pub struct Embed {
    pub title: String,
    pub description: String,
    pub color: u32,
    pub author: EmbedAuthor,
    pub footer: EmbedFooter,
    /// The moment of delivery, as the caller wrote it.
    pub timestamp: String,
    pub fields: Option<Vec<EmbedField>>,
}

/// The body of one call to an endpoint.
#[derive(Clone, Debug, PartialEq, Eq)]
pub struct WebhookPayload {
    pub username: String,
    pub embeds: Vec<Embed>,
}

/// An [`Embed`] with each text taken by its characters.
pub struct EmbedView {
    pub title: Seq<char>,
    pub description: Seq<char>,
    pub color: u32,
    pub author_name: Seq<char>,
    pub author_icon_url: Seq<char>,
    pub footer_text: Seq<char>,
    pub footer_icon_url: Seq<char>,
    pub timestamp: Seq<char>,
    pub fields: Option<Seq<EmbedFieldView>>,
}

/// A [`WebhookPayload`] with each text taken by its characters.
pub struct PayloadView {
    pub username: Seq<char>,
    pub embeds: Seq<EmbedView>,
}

impl View for Embed {
    type V = EmbedView;

    open spec fn view(&self) -> EmbedView {
        EmbedView {
            title: self.title@,
            description: self.description@,
            color: self.color,
            author_name: self.author.name@,
            author_icon_url: self.author.icon_url@,
            footer_text: self.footer.text@,
            footer_icon_url: self.footer.icon_url@,
            timestamp: self.timestamp@,
            fields: self.fields.deep_view(),
        }
    }
}

impl DeepView for Embed {
    type V = EmbedView;

    open spec fn deep_view(&self) -> EmbedView {
        self@
    }
}

impl View for WebhookPayload {
    type V = PayloadView;

    open spec fn view(&self) -> PayloadView {
        PayloadView { username: self.username@, embeds: self.embeds.deep_view() }
    }
}

/// The name under which every notification is sent.
pub open spec fn brand_name() -> Seq<char> {
    "Canalhas Manager"@
}

/// The picture shown beside the name.
pub open spec fn brand_icon() -> Seq<char> {
    "https://i.imgur.com/fKL31aD.jpg"@
}

/// How `event` is shown when it is delivered at `timestamp`.
pub open spec fn embed_of(event: EventView, timestamp: Seq<char>) -> EmbedView {
    EmbedView {
        title: event.title(),
        description: event.description(),
        color: event.color(),
        author_name: brand_name(),
        author_icon_url: brand_icon(),
        footer_text: brand_name(),
        footer_icon_url: brand_icon(),
        timestamp,
        fields: event.fields(),
    }
}

/// The body that announces `event` at `timestamp`: one embed under the
/// brand name.
pub open spec fn payload_of(event: EventView, timestamp: Seq<char>) -> PayloadView {
    PayloadView { username: brand_name(), embeds: seq![embed_of(event, timestamp)] }
}

/// Renders the body that announces `event` at `timestamp`.
pub fn render_payload(event: &WebhookEvent, timestamp: String) -> (payload: WebhookPayload)
    ensures
        payload@ == payload_of(event@, timestamp@),
{
    let embed = Embed {
        title: event.title(),
        description: event.description(),
        color: event.color(),
        author: EmbedAuthor {
            name: String::from_str("Canalhas Manager"),
            icon_url: String::from_str("https://i.imgur.com/fKL31aD.jpg"),
        },
        footer: EmbedFooter {
            text: String::from_str("Canalhas Manager"),
            icon_url: String::from_str("https://i.imgur.com/fKL31aD.jpg"),
        },
        timestamp,
        fields: event.fields(),
    };
    let mut embeds: Vec<Embed> = Vec::new();
    embeds.push(embed);
    assert(embeds.deep_view() =~= seq![embed@]);
    WebhookPayload { username: String::from_str("Canalhas Manager"), embeds }
}

/// What announcing one event comes to: the same body, sent once to each
/// target.
#[derive(Clone, Debug, PartialEq, Eq)]
pub struct Emission {
    /// The URLs to call, in the order of registration.
    pub targets: Vec<String>,
    pub payload: WebhookPayload,
}

/// Decides what announcing `event` at `timestamp` comes to. The targets
/// are the endpoints of `hooks` subscribed to the event's name, each as
/// often as it is registered, and no other. Each call stands for itself:
/// how one of them ends has no bearing on the list.
pub fn emit_event(hooks: &Vec<Webhook>, event: &WebhookEvent, timestamp: String) -> (r: Emission)
    ensures
        r.targets.deep_view() == urls_of(subscribers(hooks.deep_view(), event@.name())),
        r.payload@ == payload_of(event@, timestamp@),
{
    Emission {
        targets: subscriber_urls(hooks, event.name()),
        payload: render_payload(event, timestamp),
    }
}

/// The subscribers to `name` are exactly the registered endpoints whose
/// event names hold `name`: each of those is among them, and nothing else
/// is. An endpoint subscribed only to other names is left out.
pub proof fn lemma_subscribers_exact(hooks: Seq<WebhookView>, name: Seq<char>, hook: WebhookView)
    ensures
        subscribers(hooks, name).contains(hook) <==> hooks.contains(hook) && subscribes(
            hook,
            name,
        ),
{
    let wants = |h: WebhookView| subscribes(h, name);
    let chosen = subscribers(hooks, name);
    if chosen.contains(hook) {
        let i = choose|i: int| 0 <= i < chosen.len() && chosen[i] == hook;
        hooks.lemma_filter_contains_rev(wants, hook);
    }
    if hooks.contains(hook) && subscribes(hook, name) {
        let i = choose|i: int| 0 <= i < hooks.len() && hooks[i] == hook;
    }
}

/// Every URL that is called is the URL of a registered endpoint that is
/// subscribed to `name`.
pub proof fn lemma_targets_are_subscribed(hooks: Seq<WebhookView>, name: Seq<char>, url: Seq<char>)
    requires
        urls_of(subscribers(hooks, name)).contains(url),
    ensures
        exists|hook: WebhookView|
            hooks.contains(hook) && hook.url == url && subscribes(hook, name),
{
    let chosen = subscribers(hooks, name);
    let i = choose|i: int| 0 <= i < urls_of(chosen).len() && urls_of(chosen)[i] == url;
    lemma_subscribers_exact(hooks, name, chosen[i]);
}

/// As many calls are made as there are subscribed endpoints, counted with
/// their repetitions.
pub proof fn lemma_one_call_per_subscriber(hooks: Seq<WebhookView>, name: Seq<char>)
    ensures
        urls_of(subscribers(hooks, name)).len() == subscribers(hooks, name).len(),
        subscribers(hooks, name).len() <= hooks.len(),
        forall|i: int|
            0 <= i < subscribers(hooks, name).len() ==> urls_of(subscribers(hooks, name))[i]
                == #[trigger] subscribers(hooks, name)[i].url,
{
}

/// Two endpoints may be registered under one URL with different event
/// names, and removing that URL removes both: what is left is what
/// removing the URL from the list before them leaves, and no endpoint of
/// that URL is in it.
pub proof fn lemma_remove_takes_duplicates(
    hooks: Seq<WebhookView>,
    url: Seq<char>,
    first_events: Seq<Seq<char>>,
    second_events: Seq<Seq<char>>,
)
    ensures
        without_url(
            hooks.push(WebhookView { url, events: first_events }).push(
                WebhookView { url, events: second_events },
            ),
            url,
        ) == without_url(hooks, url),
        forall|h: WebhookView| #[trigger] without_url(hooks, url).contains(h) ==> h.url != url,
{
    let keep = |h: WebhookView| h.url != url;
    let first = WebhookView { url, events: first_events };
    let second = WebhookView { url, events: second_events };
    hooks.lemma_filter_push(first, keep);
    hooks.push(first).lemma_filter_push(second, keep);
}

/// Removing a URL leaves every endpoint of another URL in place, in order.
pub proof fn lemma_remove_keeps_others(hooks: Seq<WebhookView>, url: Seq<char>, hook: WebhookView)
    requires
        hook.url != url,
    ensures
        without_url(hooks.push(hook), url) == without_url(hooks, url).push(hook),
{
    hooks.lemma_filter_push(hook, |h: WebhookView| h.url != url);
}

} // verus!
