//! What the server prints, line by line: which lines report a fault, which
//! report a knife kill, and what follows from each.

use vstd::prelude::*;
use vstd::string::*;
use crate::event::{EventView, WebhookEvent};
use crate::knife_score::{
    kills_of, record_kill, register_knife_kill, KillRecord, ScoreLedger, ScoreTable,
};
use crate::text::{
    chars_of, contains, contains_spec, lowercase, lowercase_of,
    split_trimmed, starts_with, starts_with_spec, trim_bounds, trim_spec, trimmed_pieces,
};

verus! {

/// The text with which a line that reports a knife kill begins.
pub open spec fn marker_prefix() -> Seq<char> {
    "[CANALHAS-EVENT] knife_kill |"@
}

/// The separator between the fields of a marker line.
pub open spec fn field_separator() -> char {
    '|'
}

/// The fields of a marker line: what follows the prefix, trimmed, split at
/// the separator, each piece trimmed.
pub open spec fn marker_fields(line: Seq<char>) -> Seq<Seq<char>> {
    trimmed_pieces(trim_spec(line.skip(marker_prefix().len() as int)), field_separator())
}

/// The kill that `line` reports: one where the line begins with the prefix
/// and has exactly four fields, none otherwise.
pub open spec fn parse_spec(line: Seq<char>) -> Option<KillRecord> {
    let fields = marker_fields(line);
    if starts_with_spec(line, marker_prefix()) && fields.len() == 4 {
        Some(
            KillRecord {
                killer_id: fields[0],
                killer_name: fields[1],
                victim_id: fields[2],
                victim_name: fields[3],
            },
        )
    } else {
        None
    }
}

/// Whether a lowercased line holds one of the two fault texts.
pub open spec fn fault_in(lowered: Seq<char>) -> bool {
    contains_spec(lowered, "segmentation fault"@) || contains_spec(lowered, "couldn't open"@)
}

/// Whether `line` reports a fault: its lowercase form holds a fault text.
pub open spec fn is_fault_spec(line: Seq<char>) -> bool {
    fault_in(lowercase_of(line))
}

/// A knife kill as a marker line reports it.
#[derive(Clone, Debug, PartialEq, Eq)]
pub struct KnifeKill {
    pub killer_id: String,
    pub killer_name: String,
    pub victim_id: String,
    pub victim_name: String,
}

impl View for KnifeKill {
    type V = KillRecord;

    open spec fn view(&self) -> KillRecord {
        KillRecord {
            killer_id: self.killer_id@,
            killer_name: self.killer_name@,
            victim_id: self.victim_id@,
            victim_name: self.victim_name@,
        }
    }
}

impl DeepView for KnifeKill {
    type V = KillRecord;

    open spec fn deep_view(&self) -> KillRecord {
        self@
    }
}

/// What one line of output amounts to.
#[derive(Clone, Debug, PartialEq, Eq)]
pub struct LineOutcome {
    /// The line reports a fault.
    pub fault: bool,
    /// The knife kill that the line reports, if it reports one.
    pub kill: Option<KnifeKill>,
}

/// Reads a marker line. A line that does not begin with the prefix, or
/// whose field count is not four, reports no kill.
pub fn parse_knife_kill(line: &str) -> (r: Option<KnifeKill>)
    ensures
        r.deep_view() == parse_spec(line@),
{
    let v = chars_of(line);
    let p = chars_of("[CANALHAS-EVENT] knife_kill |");
    proof {
        reveal_strlit("[CANALHAS-EVENT] knife_kill |");
    }
    if !starts_with(&v, &p) {
        return None;
    }
    let (lo, hi) = trim_bounds(&v, p.len(), v.len());
    let fields = split_trimmed(&v, lo, hi, '|');
    if fields.len() != 4 {
        return None;
    }
    let kill = KnifeKill {
        killer_id: fields[0].clone(),
        killer_name: fields[1].clone(),
        victim_id: fields[2].clone(),
        victim_name: fields[3].clone(),
    };
    Some(kill)
}

/// Tests a line that has been lowercased for the two fault texts.
pub fn has_fault_text(lowered: &str) -> (b: bool)
    ensures
        b == fault_in(lowered@),
{
    let v = chars_of(lowered);
    let crash = chars_of("segmentation fault");
    let missing = chars_of("couldn't open");
    contains(&v, &crash) || contains(&v, &missing)
}

/// Tests whether a line reports a fault, whatever the case of its letters.
pub fn is_fault_line(line: &str) -> (b: bool)
    ensures
        b == is_fault_spec(line@),
{
    let lowered = lowercase(line);
    has_fault_text(lowered.as_str())
}

/// Reads one line of output.
pub fn classify_line(line: &str) -> (outcome: LineOutcome)
    ensures
        outcome.fault == is_fault_spec(line@),
        outcome.kill.deep_view() == parse_spec(line@),
{
    LineOutcome { fault: is_fault_line(line), kill: parse_knife_kill(line) }
}

/// The line as it is shown to the operator: the time of day in square
/// brackets, a space, and the line unchanged.
pub fn format_log_line(timestamp: &str, line: &str) -> (r: String)
    ensures
        r@ == "["@ + timestamp@ + "] "@ + line@,
{
    let mut r = String::from_str("[");
    r.append(timestamp);
    r.append("] ");
    r.append(line);
    r
}

/// The scope `table` after a line that reports `kill`.
pub open spec fn table_after(table: ScoreTable, kill: Option<KillRecord>) -> ScoreTable {
    match kill {
        Some(k) => record_kill(table, k.killer_id, k.killer_name, k.victim_id, k.victim_name),
        None => table,
    }
}

/// The events that a line gives rise to: first the fault, if it reports
/// one, then the knife kill, if it reports one, with the two counts that
/// `daily` holds once the kill is recorded.
pub open spec fn line_events(daily: ScoreTable, fault: bool, kill: Option<KillRecord>) -> Seq<
    EventView,
> {
    let faults = if fault {
        seq![EventView::ErrorOccurred]
    } else {
        Seq::<EventView>::empty()
    };
    match kill {
        Some(k) => faults.push(
            EventView::KnifeKill {
                killer_id: k.killer_id,
                killer_name: k.killer_name,
                victim_id: k.victim_id,
                victim_name: k.victim_name,
                killer_score: kills_of(daily, k.killer_id, k.victim_id),
                victim_score: kills_of(daily, k.victim_id, k.killer_id),
            },
        ),
        None => faults,
    }
}

/// Whether one more kill as `kill` reports it can still be counted in
/// `table`.
pub open spec fn has_room(table: ScoreTable, kill: Option<KillRecord>) -> bool {
    match kill {
        Some(k) => kills_of(table, k.killer_id, k.victim_id) < u32::MAX,
        None => true,
    }
}

/// What was done about one line of output.
#[derive(Clone, Debug, PartialEq, Eq)]
pub struct LineResult {
    /// The events to announce, in order.
    pub events: Vec<WebhookEvent>,
    /// The kill that the line reports and that was not counted, because a
    /// count of its pair stands at its maximum.
    pub dropped: Option<KnifeKill>,
}

/// Whether `kill` can be counted in both scopes.
pub open spec fn can_count(daily: ScoreTable, monthly: ScoreTable, kill: Option<KillRecord>)
    -> bool {
    has_room(daily, kill) && has_room(monthly, kill)
}

/// Carries out what a line amounts to. A fault is announced. A kill is
/// recorded in both scopes and announced with the counts of the day; where
/// a count of its pair has no room left, the kill is handed back instead:
/// it is not recorded and not announced.
pub fn record_outcome(ledger: &mut ScoreLedger, outcome: LineOutcome) -> (r: LineResult)
    ensures
        outcome.kill is None ==> *final(ledger) == *old(ledger),
        can_count(
            old(ledger).daily_view(),
            old(ledger).monthly_view(),
            outcome.kill.deep_view(),
        ) ==> {
            &&& final(ledger).daily_view() == table_after(
                old(ledger).daily_view(),
                outcome.kill.deep_view(),
            )
            &&& final(ledger).monthly_view() == table_after(
                old(ledger).monthly_view(),
                outcome.kill.deep_view(),
            )
            &&& r.events.deep_view() == line_events(
                final(ledger).daily_view(),
                outcome.fault,
                outcome.kill.deep_view(),
            )
            &&& r.dropped is None
        },
        !can_count(
            old(ledger).daily_view(),
            old(ledger).monthly_view(),
            outcome.kill.deep_view(),
        ) ==> {
            &&& *final(ledger) == *old(ledger)
            &&& r.events.deep_view() == line_events(old(ledger).daily_view(), outcome.fault, None)
            &&& r.dropped.deep_view() == outcome.kill.deep_view()
        },
{
    let mut events: Vec<WebhookEvent> = Vec::new();
    if outcome.fault {
        events.push(WebhookEvent::ErrorOccurred);
    }
    match outcome.kill {
        Some(kill) => {
            let room = ledger.daily_kills(kill.killer_id.as_str(), kill.victim_id.as_str())
                < u32::MAX && ledger.monthly_kills(
                kill.killer_id.as_str(),
                kill.victim_id.as_str(),
            ) < u32::MAX;
            if room {
                let (killer_score, victim_score) = register_knife_kill(
                    ledger,
                    kill.killer_id.clone(),
                    kill.killer_name.clone(),
                    kill.victim_id.clone(),
                    kill.victim_name.clone(),
                );
                let event = WebhookEvent::KnifeKill {
                    killer_id: kill.killer_id,
                    killer_name: kill.killer_name,
                    victim_id: kill.victim_id,
                    victim_name: kill.victim_name,
                    killer_score,
                    victim_score,
                };
                events.push(event);
                LineResult { events, dropped: None }
            } else {
                LineResult { events, dropped: Some(kill) }
            }
        },
        None => LineResult { events, dropped: None },
    }
}

/// Reads one line of output and carries out what it amounts to.
pub fn process_line(ledger: &mut ScoreLedger, line: &str) -> (r: LineResult)
    ensures
        parse_spec(line@) is None ==> *final(ledger) == *old(ledger),
        can_count(old(ledger).daily_view(), old(ledger).monthly_view(), parse_spec(line@)) ==> {
            &&& final(ledger).daily_view() == table_after(
                old(ledger).daily_view(),
                parse_spec(line@),
            )
            &&& final(ledger).monthly_view() == table_after(
                old(ledger).monthly_view(),
                parse_spec(line@),
            )
            &&& r.events.deep_view() == line_events(
                final(ledger).daily_view(),
                is_fault_spec(line@),
                parse_spec(line@),
            )
            &&& r.dropped is None
        },
        !can_count(old(ledger).daily_view(), old(ledger).monthly_view(), parse_spec(line@)) ==> {
            &&& *final(ledger) == *old(ledger)
            &&& r.events.deep_view() == line_events(
                old(ledger).daily_view(),
                is_fault_spec(line@),
                None,
            )
            &&& r.dropped.deep_view() == parse_spec(line@)
        },
{
    let outcome = classify_line(line);
    record_outcome(ledger, outcome)
}

/// A marker line whose field count is not four changes no scope and
/// announces no knife kill: what it gives rise to is the fault alone, if
/// it reports one.
pub proof fn lemma_wrong_field_count(table: ScoreTable, line: Seq<char>)
    requires
        marker_fields(line).len() != 4,
    ensures
        parse_spec(line) is None,
        table_after(table, parse_spec(line)) == table,
        line_events(table, is_fault_spec(line), parse_spec(line)) == if is_fault_spec(line) {
            seq![EventView::ErrorOccurred]
        } else {
            Seq::<EventView>::empty()
        },
{
}

/// A line that reports a fault and is no marker line gives rise to exactly
/// one event, the fault, and changes no scope.
pub proof fn lemma_fault_line(table: ScoreTable, line: Seq<char>)
    requires
        is_fault_spec(line),
        !starts_with_spec(line, marker_prefix()),
    ensures
        table_after(table, parse_spec(line)) == table,
        line_events(table, is_fault_spec(line), parse_spec(line)) == seq![
            EventView::ErrorOccurred,
        ],
{
}

} // verus!
