//! Knife-kill statistics: who killed whom how often, counted twice over,
//! once for the day and once for the month.

use vstd::prelude::*;
use vstd::string::*;
use crate::text_map::TextMap;

verus! {

/// What is known of one player: the name first seen for them, and for each
/// opponent the number of times they killed that opponent.
#[derive(Clone, Debug)]
pub struct PlayerScore {
    pub name: String,
    pub kills: TextMap<u32>,
}

/// A [`PlayerScore`] with each text taken by its characters.
pub struct PlayerView {
    pub name: Seq<char>,
    pub kills: Map<Seq<char>, nat>,
}

impl View for PlayerScore {
    type V = PlayerView;

    open spec fn view(&self) -> PlayerView {
        PlayerView { name: self.name@, kills: self.kills@.map_values(|n: u32| n as nat) }
    }
}

/// One scope of the statistics: the players by their id.
pub type ScoreTable = Map<Seq<char>, PlayerView>;

/// The table that a map of players stands for.
pub open spec fn table_view(scores: TextMap<PlayerScore>) -> ScoreTable {
    scores@.map_values(|p: PlayerScore| p@)
}

/// How often `killer` has killed `victim` according to `table`.
pub open spec fn kills_of(table: ScoreTable, killer: Seq<char>, victim: Seq<char>) -> nat {
    if table.dom().contains(killer) && table[killer].kills.dom().contains(victim) {
        table[killer].kills[victim]
    } else {
        0
    }
}

/// `table` with player `id` entered under `name` and without kills, unless
/// the player is known already: a known player keeps name and kills.
pub open spec fn with_player(table: ScoreTable, id: Seq<char>, name: Seq<char>) -> ScoreTable {
    if table.dom().contains(id) {
        table
    } else {
        table.insert(id, PlayerView { name, kills: Map::empty() })
    }
}

/// `table` after one kill: both players are known, and the killer's count
/// on the victim is one higher.
pub open spec fn record_kill(
    table: ScoreTable,
    killer_id: Seq<char>,
    killer_name: Seq<char>,
    victim_id: Seq<char>,
    victim_name: Seq<char>,
) -> ScoreTable {
    let both = with_player(with_player(table, victim_id, victim_name), killer_id, killer_name);
    let killer = both[killer_id];
    both.insert(
        killer_id,
        PlayerView {
            name: killer.name,
            kills: killer.kills.insert(victim_id, kills_of(both, killer_id, victim_id) + 1),
        },
    )
}

/// The count that `scores` holds for `killer` on `victim`, zero where it
/// holds none.
pub fn lookup_kills(scores: &TextMap<PlayerScore>, killer: &str, victim: &str) -> (n: u32)
    ensures
        n == kills_of(table_view(*scores), killer@, victim@),
{
    match scores.get(killer) {
        Some(player) => match player.kills.get(victim) {
            Some(n) => *n,
            None => 0,
        },
        None => 0,
    }
}

/// Records one kill in `scores` and returns the killer's count on the
/// victim and the victim's count on the killer, both as they stand after
/// the kill.
pub fn update_score(
    scores: &mut TextMap<PlayerScore>,
    killer_id: &str,
    killer_name: &str,
    victim_id: &str,
    victim_name: &str,
) -> (r: (u32, u32))
    requires
        kills_of(table_view(*old(scores)), killer_id@, victim_id@) < u32::MAX,
    ensures
        table_view(*final(scores)) == record_kill(
            table_view(*old(scores)),
            killer_id@,
            killer_name@,
            victim_id@,
            victim_name@,
        ),
        r.0 == kills_of(table_view(*final(scores)), killer_id@, victim_id@),
        r.1 == kills_of(table_view(*final(scores)), victim_id@, killer_id@),
{
    let ghost before = table_view(*scores);
    scores.insert_if_absent(
        String::from_str(victim_id),
        PlayerScore { name: String::from_str(victim_name), kills: TextMap::new() },
    );
    assert(table_view(*scores) =~= with_player(before, victim_id@, victim_name@)) by {
        assert(Map::<Seq<char>, u32>::empty().map_values(|n: u32| n as nat) =~= Map::<
            Seq<char>,
            nat,
        >::empty());
    }
    let ghost one = table_view(*scores);
    scores.insert_if_absent(
        String::from_str(killer_id),
        PlayerScore { name: String::from_str(killer_name), kills: TextMap::new() },
    );
    assert(table_view(*scores) =~= with_player(one, killer_id@, killer_name@)) by {
        assert(Map::<Seq<char>, u32>::empty().map_values(|n: u32| n as nat) =~= Map::<
            Seq<char>,
            nat,
        >::empty());
    }
    match scores.remove(killer_id) {
        Some(mut killer) => {
            let ghost was = killer;
            let count = match killer.kills.get(victim_id) {
                Some(n) => *n,
                None => 0,
            };
            killer.kills.insert(String::from_str(victim_id), count + 1);
            assert(killer@.kills =~= was@.kills.insert(victim_id@, (count + 1) as nat));
            scores.insert(String::from_str(killer_id), killer);
        },
        None => {},
    }
    let killer_score = lookup_kills(scores, killer_id, victim_id);
    let victim_score = lookup_kills(scores, victim_id, killer_id);
    (killer_score, victim_score)
}

/// The statistics in both scopes. The two are counted alike and reset
/// apart.
#[derive(Clone, Debug)]
pub struct ScoreLedger {
    pub daily: TextMap<PlayerScore>,
    pub monthly: TextMap<PlayerScore>,
}

impl ScoreLedger {
    /// The table of the day.
    pub open spec fn daily_view(&self) -> ScoreTable {
        table_view(self.daily)
    }

    /// The table of the month.
    pub open spec fn monthly_view(&self) -> ScoreTable {
        table_view(self.monthly)
    }

    /// A ledger without any player in either scope.
    pub fn new() -> (ledger: Self)
        ensures
            ledger.daily_view() == Map::<Seq<char>, PlayerView>::empty(),
            ledger.monthly_view() == Map::<Seq<char>, PlayerView>::empty(),
    {
        let ledger = ScoreLedger { daily: TextMap::new(), monthly: TextMap::new() };
        ledger
    }

    /// How often `killer` has killed `victim` today.
    pub fn daily_kills(&self, killer: &str, victim: &str) -> (n: u32)
        ensures
            n == kills_of(self.daily_view(), killer@, victim@),
    {
        lookup_kills(&self.daily, killer, victim)
    }

    /// How often `killer` has killed `victim` this month.
    pub fn monthly_kills(&self, killer: &str, victim: &str) -> (n: u32)
        ensures
            n == kills_of(self.monthly_view(), killer@, victim@),
    {
        lookup_kills(&self.monthly, killer, victim)
    }
}

/// Records one kill in both scopes and returns the counts of the day: the
/// killer's on the victim and the victim's on the killer.
pub fn register_knife_kill(
    ledger: &mut ScoreLedger,
    killer_id: String,
    killer_name: String,
    victim_id: String,
    victim_name: String,
) -> (r: (u32, u32))
    requires
        kills_of(old(ledger).daily_view(), killer_id@, victim_id@) < u32::MAX,
        kills_of(old(ledger).monthly_view(), killer_id@, victim_id@) < u32::MAX,
    ensures
        final(ledger).daily_view() == record_kill(
            old(ledger).daily_view(),
            killer_id@,
            killer_name@,
            victim_id@,
            victim_name@,
        ),
        final(ledger).monthly_view() == record_kill(
            old(ledger).monthly_view(),
            killer_id@,
            killer_name@,
            victim_id@,
            victim_name@,
        ),
        r.0 == kills_of(final(ledger).daily_view(), killer_id@, victim_id@),
        r.1 == kills_of(final(ledger).daily_view(), victim_id@, killer_id@),
{
    let daily = update_score(
        &mut ledger.daily,
        killer_id.as_str(),
        killer_name.as_str(),
        victim_id.as_str(),
        victim_name.as_str(),
    );
    update_score(
        &mut ledger.monthly,
        killer_id.as_str(),
        killer_name.as_str(),
        victim_id.as_str(),
        victim_name.as_str(),
    );
    daily
}

/// Empties the scope of the day. The month is left as it is.
pub fn reset_daily_scores(ledger: &mut ScoreLedger)
    ensures
        final(ledger).daily_view() == Map::<Seq<char>, PlayerView>::empty(),
        final(ledger).monthly == old(ledger).monthly,
{
    ledger.daily = TextMap::new();
}

/// Empties the scope of the month. The day is left as it is.
pub fn reset_monthly_scores(ledger: &mut ScoreLedger)
    ensures
        final(ledger).monthly_view() == Map::<Seq<char>, PlayerView>::empty(),
        final(ledger).daily == old(ledger).daily,
{
    ledger.monthly = TextMap::new();
}

/// One kill as it is reported: who killed whom, with the names they bore.
pub struct KillRecord {
    pub killer_id: Seq<char>,
    pub killer_name: Seq<char>,
    pub victim_id: Seq<char>,
    pub victim_name: Seq<char>,
}

/// `table` after the kills of `kills`, recorded in order.
pub open spec fn replay(table: ScoreTable, kills: Seq<KillRecord>) -> ScoreTable
    decreases kills.len(),
{
    if kills.len() == 0 {
        table
    } else {
        let k = kills.last();
        record_kill(
            replay(table, kills.drop_last()),
            k.killer_id,
            k.killer_name,
            k.victim_id,
            k.victim_name,
        )
    }
}

/// How many kills of `kills` are by `killer` on `victim`.
pub open spec fn count_pair(kills: Seq<KillRecord>, killer: Seq<char>, victim: Seq<char>) -> nat
    decreases kills.len(),
{
    if kills.len() == 0 {
        0
    } else {
        let k = kills.last();
        let hit: nat = if k.killer_id == killer && k.victim_id == victim {
            1
        } else {
            0
        };
        count_pair(kills.drop_last(), killer, victim) + hit
    }
}

/// One recorded kill raises the count of its own ordered pair by one and
/// leaves the count of every other pair as it was.
pub proof fn lemma_record_kill_counts(
    table: ScoreTable,
    k: KillRecord,
    killer: Seq<char>,
    victim: Seq<char>,
)
    ensures
        kills_of(
            record_kill(table, k.killer_id, k.killer_name, k.victim_id, k.victim_name),
            killer,
            victim,
        ) == kills_of(table, killer, victim) + if k.killer_id == killer && k.victim_id == victim {
            1nat
        } else {
            0nat
        },
{
}

/// After any sequence of kills, the count of an ordered pair has grown by
/// the number of kills of exactly that pair, whatever else was recorded in
/// between.
pub proof fn lemma_replay_counts(
    table: ScoreTable,
    kills: Seq<KillRecord>,
    killer: Seq<char>,
    victim: Seq<char>,
)
    ensures
        kills_of(replay(table, kills), killer, victim) == kills_of(table, killer, victim)
            + count_pair(kills, killer, victim),
    decreases kills.len(),
{
    if kills.len() > 0 {
        lemma_replay_counts(table, kills.drop_last(), killer, victim);
    }
}

/// Starting from an empty scope, as a reset leaves it, the count of an
/// ordered pair is the number of kills of exactly that pair recorded since.
/// This is the count that recording the last of them returns.
pub proof fn lemma_counts_since_reset(
    kills: Seq<KillRecord>,
    killer: Seq<char>,
    victim: Seq<char>,
)
    ensures
        kills_of(replay(Map::empty(), kills), killer, victim) == count_pair(kills, killer, victim),
{
    lemma_replay_counts(Map::empty(), kills, killer, victim);
}

/// When `earlier` are the kills recorded since the scope was emptied, the
/// count that recording one more kill returns to the killer is one more
/// than the number of earlier kills of exactly that ordered pair, whatever
/// names the players bear and whatever else was recorded in between.
pub proof fn lemma_count_returned(earlier: Seq<KillRecord>, k: KillRecord)
    ensures
        kills_of(
            record_kill(
                replay(Map::empty(), earlier),
                k.killer_id,
                k.killer_name,
                k.victim_id,
                k.victim_name,
            ),
            k.killer_id,
            k.victim_id,
        ) == count_pair(earlier, k.killer_id, k.victim_id) + 1,
{
    lemma_counts_since_reset(earlier, k.killer_id, k.victim_id);
}

/// An empty scope answers zero to every query, and the first kill recorded
/// in it counts as one: nothing of what was counted before the scope was
/// emptied is left.
pub proof fn lemma_fresh_after_reset(k: KillRecord, killer: Seq<char>, victim: Seq<char>)
    ensures
        kills_of(Map::empty(), killer, victim) == 0,
        kills_of(
            record_kill(Map::empty(), k.killer_id, k.killer_name, k.victim_id, k.victim_name),
            k.killer_id,
            k.victim_id,
        ) == 1,
        k.killer_id != k.victim_id ==> kills_of(
            record_kill(Map::empty(), k.killer_id, k.killer_name, k.victim_id, k.victim_name),
            k.victim_id,
            k.killer_id,
        ) == 0,
{
}

/// Recording a kill never lowers a count and never renames a player that
/// the scope already knew.
pub proof fn lemma_record_kill_keeps(
    table: ScoreTable,
    k: KillRecord,
    killer: Seq<char>,
    victim: Seq<char>,
    id: Seq<char>,
)
    ensures
        kills_of(
            record_kill(table, k.killer_id, k.killer_name, k.victim_id, k.victim_name),
            killer,
            victim,
        ) >= kills_of(table, killer, victim),
        table.dom().contains(id) ==> record_kill(
            table,
            k.killer_id,
            k.killer_name,
            k.victim_id,
            k.victim_name,
        ).dom().contains(id) && record_kill(
            table,
            k.killer_id,
            k.killer_name,
            k.victim_id,
            k.victim_name,
        )[id].name == table[id].name,
{
}

} // verus!
