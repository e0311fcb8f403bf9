//! How fast memories fade (the forgetting time constant of each kind of
//! memory, by its source and provenance), and which of a group of similar
//! memories survive the source filter.
//!
//! Time constants are days, as 32-bit float bit patterns (see
//! `float_bits`); seeded common knowledge never fades (+infinity).

use vstd::prelude::*;
use crate::memory::{source_priority, MemoryEntry, MemorySource, MemoryType, Provenance};
use crate::float_bits::{at_least, f32_ge, f32_key, less_than};
use crate::text::str_eq;
use crate::tuning::DECAY_TAU_DEFAULT_DAYS;

verus! {

/// The bit pattern of +infinity.
pub const INFINITY_BITS: u32 = 0x7F80_0000u32;

/// One row of the table: a kind, source and provenance, and its time
/// constant in days (float bits).
pub type TauEntry = (MemoryType, MemorySource, Provenance, u32);

/// Forgetting time constants by kind, source and provenance; rows not in
/// the table take the default.
#[derive(Debug, Clone)]
pub struct DecayTauTable {
    entries: Vec<TauEntry>,
    default_days: u32,
}

/// The rows of the default table: dialogue turns 15 days when experienced,
/// 30 witnessed, 14 heard, 7 rumoured; beat transitions 45; scene summaries
/// 90; relationship changes 60; world events 180; seeded faction knowledge
/// and family facts never fade.
pub open spec fn default_tau_entries() -> Seq<TauEntry> {
    seq![
        (MemoryType::DialogueTurn, MemorySource::Experienced, Provenance::Runtime, 0x4170_0000u32),
        (MemoryType::DialogueTurn, MemorySource::Witnessed, Provenance::Runtime, 0x41F0_0000u32),
        (MemoryType::DialogueTurn, MemorySource::Heard, Provenance::Runtime, 0x4160_0000u32),
        (MemoryType::DialogueTurn, MemorySource::Rumor, Provenance::Runtime, 0x40E0_0000u32),
        (MemoryType::BeatTransition, MemorySource::Experienced, Provenance::Runtime, 0x4234_0000u32),
        (MemoryType::BeatTransition, MemorySource::Witnessed, Provenance::Runtime, 0x4234_0000u32),
        (MemoryType::SceneSummary, MemorySource::Experienced, Provenance::Runtime, 0x42B4_0000u32),
        (MemoryType::SceneSummary, MemorySource::Witnessed, Provenance::Runtime, 0x42B4_0000u32),
        (MemoryType::RelationshipChange, MemorySource::Experienced, Provenance::Runtime, 0x4270_0000u32),
        (MemoryType::RelationshipChange, MemorySource::Witnessed, Provenance::Runtime, 0x4270_0000u32),
        (MemoryType::WorldEvent, MemorySource::Experienced, Provenance::Runtime, 0x4334_0000u32),
        (MemoryType::WorldEvent, MemorySource::Witnessed, Provenance::Runtime, 0x4334_0000u32),
        (MemoryType::FactionKnowledge, MemorySource::Experienced, Provenance::Seeded, INFINITY_BITS),
        (MemoryType::FamilyFact, MemorySource::Experienced, Provenance::Seeded, INFINITY_BITS),
    ]
}

/// The time constant of the first row of `entries` for this kind, source
/// and provenance; `default_days` when there is none.
pub open spec fn tau_of(
    entries: Seq<TauEntry>,
    default_days: u32,
    ty: MemoryType,
    src: MemorySource,
    prov: Provenance,
) -> u32
    decreases entries.len(),
{
    if entries.len() == 0 {
        default_days
    } else if entries[0].0 == ty && entries[0].1 == src && entries[0].2 == prov {
        entries[0].3
    } else {
        tau_of(entries.drop_first(), default_days, ty, src, prov)
    }
}

impl DecayTauTable {
    /// The rows of the table.
    pub closed spec fn entries_spec(self) -> Seq<TauEntry> {
        self.entries@
    }

    /// The time constant of rows not in the table (float bits).
    pub closed spec fn default_spec(self) -> u32 {
        self.default_days
    }

    /// The default table, with the tuning default (30 days) for the rest.
    pub fn default_table() -> (r: DecayTauTable)
        ensures
            r.entries_spec() == default_tau_entries(),
            r.default_spec() == DECAY_TAU_DEFAULT_DAYS,
    {
        let entries = vec![
            (MemoryType::DialogueTurn, MemorySource::Experienced, Provenance::Runtime, 0x4170_0000u32),
            (MemoryType::DialogueTurn, MemorySource::Witnessed, Provenance::Runtime, 0x41F0_0000u32),
            (MemoryType::DialogueTurn, MemorySource::Heard, Provenance::Runtime, 0x4160_0000u32),
            (MemoryType::DialogueTurn, MemorySource::Rumor, Provenance::Runtime, 0x40E0_0000u32),
            (MemoryType::BeatTransition, MemorySource::Experienced, Provenance::Runtime, 0x4234_0000u32),
            (MemoryType::BeatTransition, MemorySource::Witnessed, Provenance::Runtime, 0x4234_0000u32),
            (MemoryType::SceneSummary, MemorySource::Experienced, Provenance::Runtime, 0x42B4_0000u32),
            (MemoryType::SceneSummary, MemorySource::Witnessed, Provenance::Runtime, 0x42B4_0000u32),
            (MemoryType::RelationshipChange, MemorySource::Experienced, Provenance::Runtime, 0x4270_0000u32),
            (MemoryType::RelationshipChange, MemorySource::Witnessed, Provenance::Runtime, 0x4270_0000u32),
            (MemoryType::WorldEvent, MemorySource::Experienced, Provenance::Runtime, 0x4334_0000u32),
            (MemoryType::WorldEvent, MemorySource::Witnessed, Provenance::Runtime, 0x4334_0000u32),
            (MemoryType::FactionKnowledge, MemorySource::Experienced, Provenance::Seeded, INFINITY_BITS),
            (MemoryType::FamilyFact, MemorySource::Experienced, Provenance::Seeded, INFINITY_BITS),
        ];
        let r = DecayTauTable { entries, default_days: DECAY_TAU_DEFAULT_DAYS };
        assert(r.entries@ =~= default_tau_entries());
        r
    }

    /// The time constant (days, float bits) of memories of this kind,
    /// source and provenance.
    pub fn lookup(&self, ty: &MemoryType, src: MemorySource, prov: Provenance) -> (r: u32)
        ensures
            r == tau_of(self.entries_spec(), self.default_spec(), *ty, src, prov),
    {
        let n = self.entries.len();
        let mut i: usize = 0;
        assert(self.entries@.skip(0) =~= self.entries@);
        while i < n
            invariant
                n == self.entries@.len(),
                i <= n,
                tau_of(self.entries@, self.default_days, *ty, src, prov) == tau_of(
                    self.entries@.skip(i as int),
                    self.default_days,
                    *ty,
                    src,
                    prov,
                ),
            decreases n - i,
        {
            proof {
                assert(self.entries@.skip(i as int).drop_first() =~= self.entries@.skip(i + 1));
                assert(self.entries@.skip(i as int)[0] == self.entries@[i as int]);
            }
            let (t, s, p, v) = self.entries[i];
            if t == *ty && s == src && p == prov {
                return v;
            }
            i = i + 1;
        }
        self.default_days
    }
}

impl Default for DecayTauTable {
    fn default() -> (r: DecayTauTable)
        ensures
            r.entries_spec() == default_tau_entries(),
            r.default_spec() == DECAY_TAU_DEFAULT_DAYS,
    {
        DecayTauTable::default_table()
    }
}

/// Which memories of one group (one topic, or one cluster of similar
/// memories without a topic) survive: those whose source is the most
/// direct in the group, that is of the least priority.
pub fn keep_min_priority(sources: &Vec<MemorySource>) -> (r: Vec<bool>)
    ensures
        r@.len() == sources@.len(),
        forall|i: int|
            0 <= i < r@.len() ==> (#[trigger] r@[i] <==> forall|j: int|
                0 <= j < sources@.len() ==> source_priority(sources@[i]) <= source_priority(#[trigger] sources@[j])),
{
    let n = sources.len();
    let mut min: u8 = 255;
    let mut arg: usize = 0;
    let mut i: usize = 0;
    while i < n
        invariant
            n == sources@.len(),
            i <= n,
            i == 0 ==> min == 255,
            forall|j: int| 0 <= j < i ==> min <= source_priority(#[trigger] sources@[j]),
            i > 0 ==> arg < i && min == source_priority(sources@[arg as int]),
        decreases n - i,
    {
        let p = sources[i].priority();
        if p < min {
            min = p;
            arg = i;
        }
        i = i + 1;
    }
    assert(n > 0 ==> min == source_priority(sources@[arg as int]));
    let mut keep: Vec<bool> = Vec::new();
    let mut k: usize = 0;
    while k < n
        invariant
            n == sources@.len(),
            k <= n,
            keep@.len() == k,
            forall|j: int| 0 <= j < n ==> min <= source_priority(#[trigger] sources@[j]),
            n > 0 ==> exists|j: int| 0 <= j < n && min == source_priority(#[trigger] sources@[j]),
            forall|q: int| 0 <= q < k ==> (#[trigger] keep@[q] <==> source_priority(sources@[q]) == min),
        decreases n - k,
    {
        let p = sources[k].priority();
        keep.push(p == min);
        k = k + 1;
    }
    proof {
        assert forall|q: int| 0 <= q < keep@.len() implies (keep@[q] <==> forall|j: int|
            0 <= j < sources@.len() ==> source_priority(sources@[q]) <= source_priority(#[trigger] sources@[j])) by {
            if !keep@[q] {
                let w = choose|j: int| 0 <= j < n && min == source_priority(#[trigger] sources@[j]);
                assert(source_priority(sources@[w]) < source_priority(sources@[q]));
            }
        }
    }
    keep
}

/// The topic of a memory, if it has one.
pub open spec fn topic_of(e: MemoryEntry) -> Option<Seq<char>> {
    match e.topic {
        Some(t) => Some(t@),
        None => None,
    }
}

/// Whether the memory `es[i]` survives among the memories of its topic:
/// no memory of the same topic comes from a more direct source.
pub open spec fn survives_in_topic(es: Seq<MemoryEntry>, i: int) -> bool {
    forall|j: int|
        0 <= j < es.len() && topic_of(#[trigger] es[j]) == topic_of(es[i]) ==> source_priority(es[i].source)
            <= source_priority(es[j].source)
}

/// For each memory with a topic, whether it survives the source filter
/// among the memories of that topic; `false` for those without a topic
/// (they are grouped by likeness instead).
pub fn topic_survivors(entries: &Vec<MemoryEntry>) -> (r: Vec<bool>)
    ensures
        r@.len() == entries@.len(),
        forall|i: int|
            0 <= i < r@.len() ==> (#[trigger] r@[i] <==> (topic_of(entries@[i]) is Some && survives_in_topic(
                entries@,
                i,
            ))),
{
    let n = entries.len();
    let mut out: Vec<bool> = Vec::new();
    let mut i: usize = 0;
    while i < n
        invariant
            n == entries@.len(),
            i <= n,
            out@.len() == i,
            forall|q: int|
                0 <= q < i ==> (#[trigger] out@[q] <==> (topic_of(entries@[q]) is Some && survives_in_topic(
                    entries@,
                    q,
                ))),
        decreases n - i,
    {
        let keep = match &entries[i].topic {
            None => false,
            Some(t) => {
                let p = entries[i].source.priority();
                let mut ok = true;
                let mut j: usize = 0;
                while j < n
                    invariant
                        n == entries@.len(),
                        i < n,
                        j <= n,
                        topic_of(entries@[i as int]) == Some(t@),
                        p == source_priority(entries@[i as int].source),
                        ok == (forall|k: int|
                            0 <= k < j && topic_of(#[trigger] entries@[k]) == topic_of(entries@[i as int]) ==> p
                                <= source_priority(entries@[k].source)),
                    decreases n - j,
                {
                    let same = match &entries[j].topic {
                        Some(u) => str_eq(u.as_str(), t.as_str()),
                        None => false,
                    };
                    if same && entries[j].source.priority() < p {
                        ok = false;
                    }
                    j = j + 1;
                }
                ok
            },
        };
        out.push(keep);
        i = i + 1;
    }
    out
}

/// Whether the score `scores[k]` reaches the cutoff (a NaN never does).
pub open spec fn passes_cutoff(scores: Seq<u32>, cutoff: u32, k: int) -> bool {
    f32_ge(scores[k], cutoff)
}

/// Whether memory `a` ranks before memory `b`: a higher score, or an equal
/// score and an earlier place among the candidates.
pub open spec fn ranks_before(scores: Seq<u32>, a: int, b: int) -> bool {
    f32_key(scores[a]) > f32_key(scores[b]) || (f32_key(scores[a]) == f32_key(scores[b]) && a < b)
}

/// The memories to keep, by their places in `scores`: those whose score
/// reaches `cutoff`, best first (equal scores in candidate order), at most
/// `limit` of them when `limit` is not 0. Any memory that reaches the
/// cutoff and is left out ranks after every memory kept, and is left out
/// only because the limit is full.
pub fn select_ranked(scores: &Vec<u32>, cutoff: u32, limit: usize) -> (r: Vec<usize>)
    ensures
        forall|i: int| 0 <= i < r@.len() ==> (#[trigger] r@[i]) < scores@.len() && passes_cutoff(scores@, cutoff, r@[i] as int),
        forall|i: int, j: int| 0 <= i < j < r@.len() ==> ranks_before(scores@, #[trigger] r@[i] as int, #[trigger] r@[j] as int),
        forall|k: int|
            0 <= k < scores@.len() && passes_cutoff(scores@, cutoff, k) && !r@.contains(k as usize) ==> limit > 0
                && r@.len() == limit && forall|i: int| 0 <= i < r@.len() ==> ranks_before(scores@, #[trigger] r@[i] as int, k),
        limit > 0 ==> r@.len() <= limit,
{
    let n = scores.len();
    let mut out: Vec<usize> = Vec::new();
    let mut k: usize = 0;
    while k < n
        invariant
            n == scores@.len(),
            k <= n,
            forall|i: int| 0 <= i < out@.len() ==> (#[trigger] out@[i]) < k && passes_cutoff(scores@, cutoff, out@[i] as int),
            forall|i: int, j: int| 0 <= i < j < out@.len() ==> ranks_before(scores@, #[trigger] out@[i] as int, #[trigger] out@[j] as int),
            forall|q: int| 0 <= q < k && passes_cutoff(scores@, cutoff, q) ==> out@.contains(q as usize),
        decreases n - k,
    {
        if at_least(scores[k], cutoff) {
            let mut p: usize = 0;
            while p < out.len() && !less_than(scores[out[p]], scores[k])
                invariant
                    n == scores@.len(),
                    k < n,
                    p <= out@.len(),
                    passes_cutoff(scores@, cutoff, k as int),
                    forall|i: int| 0 <= i < out@.len() ==> (#[trigger] out@[i]) < k && passes_cutoff(scores@, cutoff, out@[i] as int),
                    forall|i: int| 0 <= i < p ==> f32_key(scores@[#[trigger] out@[i] as int]) >= f32_key(scores@[k as int]),
                decreases out@.len() - p,
            {
                p = p + 1;
            }
            let ghost before = out@;
            proof {
                assert forall|i: int| p <= i < before.len() implies f32_key(scores@[#[trigger] before[i] as int]) < f32_key(scores@[k as int]) by {
                    if i > p {
                        assert(ranks_before(scores@, before[p as int] as int, before[i] as int));
                    }
                }
            }
            out.insert(p, k);
            proof {
                let nw = out@;
                assert(nw == before.insert(p as int, k));
                assert forall|i: int, j: int| 0 <= i < j < nw.len() implies ranks_before(scores@, #[trigger] nw[i] as int, #[trigger] nw[j] as int) by {
                    if j < p {
                        assert(nw[i] == before[i] && nw[j] == before[j]);
                    } else if j == p {
                        assert(nw[i] == before[i]);
                    } else if i == p {
                        assert(nw[j] == before[j - 1]);
                    } else if i < p {
                        assert(nw[i] == before[i] && nw[j] == before[j - 1]);
                    } else {
                        assert(nw[i] == before[i - 1] && nw[j] == before[j - 1]);
                    }
                }
                assert forall|q: int| 0 <= q < k + 1 && passes_cutoff(scores@, cutoff, q) implies nw.contains(q as usize) by {
                    if q == k {
                        assert(nw[p as int] == k);
                    } else {
                        assert(before.contains(q as usize));
                        let w = choose|w: int| 0 <= w < before.len() && before[w] == q as usize;
                        if w < p {
                            assert(nw[w] == before[w]);
                        } else {
                            assert(nw[w + 1] == before[w]);
                        }
                    }
                }
                assert forall|i: int| 0 <= i < nw.len() implies (#[trigger] nw[i]) < k + 1 && passes_cutoff(scores@, cutoff, nw[i] as int) by {
                    if i < p {
                        assert(nw[i] == before[i]);
                    } else if i > p {
                        assert(nw[i] == before[i - 1]);
                    }
                }
            }
        }
        k = k + 1;
    }
    let ghost full = out@;
    if limit > 0 && out.len() > limit {
        out.truncate(limit);
    }
    proof {
        assert forall|kk: int|
            0 <= kk < scores@.len() && passes_cutoff(scores@, cutoff, kk) && !out@.contains(kk as usize) implies limit > 0
                && out@.len() == limit && forall|i: int| 0 <= i < out@.len() ==> ranks_before(scores@, #[trigger] out@[i] as int, kk) by {
            assert(full.contains(kk as usize));
            let w = choose|w: int| 0 <= w < full.len() && full[w] == kk as usize;
            if w < out@.len() {
                assert(out@[w] == full[w]);
                assert(false);
            }
            assert forall|i: int| 0 <= i < out@.len() implies ranks_before(scores@, #[trigger] out@[i] as int, kk) by {
                assert(out@[i] == full[i]);
            }
        }
    }
    out
}


/// How long memories last in the default table (days, float bits): a
/// dialogue turn 15 experienced, 30 witnessed, 14 heard, 7 rumoured; a beat
/// transition 45, a scene summary 90, a relationship change 60 and a world
/// event 180, experienced or witnessed; seeded faction knowledge and family
/// facts forever (+infinity); anything else the default `d`.
pub proof fn law_default_forgetting(d: u32, ty: MemoryType, src: MemorySource, prov: Provenance)
    ensures
        ty == MemoryType::DialogueTurn && src == MemorySource::Experienced && prov == Provenance::Runtime ==> tau_of(default_tau_entries(), d, ty, src, prov) == 0x4170_0000u32,
        ty == MemoryType::DialogueTurn && src == MemorySource::Witnessed && prov == Provenance::Runtime ==> tau_of(default_tau_entries(), d, ty, src, prov) == 0x41F0_0000u32,
        ty == MemoryType::DialogueTurn && src == MemorySource::Heard && prov == Provenance::Runtime ==> tau_of(default_tau_entries(), d, ty, src, prov) == 0x4160_0000u32,
        ty == MemoryType::DialogueTurn && src == MemorySource::Rumor && prov == Provenance::Runtime ==> tau_of(default_tau_entries(), d, ty, src, prov) == 0x40E0_0000u32,
        ty == MemoryType::BeatTransition && src == MemorySource::Experienced && prov == Provenance::Runtime ==> tau_of(default_tau_entries(), d, ty, src, prov) == 0x4234_0000u32,
        ty == MemoryType::BeatTransition && src == MemorySource::Witnessed && prov == Provenance::Runtime ==> tau_of(default_tau_entries(), d, ty, src, prov) == 0x4234_0000u32,
        ty == MemoryType::SceneSummary && src == MemorySource::Experienced && prov == Provenance::Runtime ==> tau_of(default_tau_entries(), d, ty, src, prov) == 0x42B4_0000u32,
        ty == MemoryType::SceneSummary && src == MemorySource::Witnessed && prov == Provenance::Runtime ==> tau_of(default_tau_entries(), d, ty, src, prov) == 0x42B4_0000u32,
        ty == MemoryType::RelationshipChange && src == MemorySource::Experienced && prov == Provenance::Runtime ==> tau_of(default_tau_entries(), d, ty, src, prov) == 0x4270_0000u32,
        ty == MemoryType::RelationshipChange && src == MemorySource::Witnessed && prov == Provenance::Runtime ==> tau_of(default_tau_entries(), d, ty, src, prov) == 0x4270_0000u32,
        ty == MemoryType::WorldEvent && src == MemorySource::Experienced && prov == Provenance::Runtime ==> tau_of(default_tau_entries(), d, ty, src, prov) == 0x4334_0000u32,
        ty == MemoryType::WorldEvent && src == MemorySource::Witnessed && prov == Provenance::Runtime ==> tau_of(default_tau_entries(), d, ty, src, prov) == 0x4334_0000u32,
        ty == MemoryType::FactionKnowledge && src == MemorySource::Experienced && prov == Provenance::Seeded ==> tau_of(default_tau_entries(), d, ty, src, prov) == 0x7F80_0000u32,
        ty == MemoryType::FamilyFact && src == MemorySource::Experienced && prov == Provenance::Seeded ==> tau_of(default_tau_entries(), d, ty, src, prov) == 0x7F80_0000u32,
        !((ty == MemoryType::DialogueTurn && src == MemorySource::Experienced && prov == Provenance::Runtime) || (ty == MemoryType::DialogueTurn && src == MemorySource::Witnessed && prov == Provenance::Runtime) || (ty == MemoryType::DialogueTurn && src == MemorySource::Heard && prov == Provenance::Runtime) || (ty == MemoryType::DialogueTurn && src == MemorySource::Rumor && prov == Provenance::Runtime) || (ty == MemoryType::BeatTransition && src == MemorySource::Experienced && prov == Provenance::Runtime) || (ty == MemoryType::BeatTransition && src == MemorySource::Witnessed && prov == Provenance::Runtime) || (ty == MemoryType::SceneSummary && src == MemorySource::Experienced && prov == Provenance::Runtime) || (ty == MemoryType::SceneSummary && src == MemorySource::Witnessed && prov == Provenance::Runtime) || (ty == MemoryType::RelationshipChange && src == MemorySource::Experienced && prov == Provenance::Runtime) || (ty == MemoryType::RelationshipChange && src == MemorySource::Witnessed && prov == Provenance::Runtime) || (ty == MemoryType::WorldEvent && src == MemorySource::Experienced && prov == Provenance::Runtime) || (ty == MemoryType::WorldEvent && src == MemorySource::Witnessed && prov == Provenance::Runtime) || (ty == MemoryType::FactionKnowledge && src == MemorySource::Experienced && prov == Provenance::Seeded) || (ty == MemoryType::FamilyFact && src == MemorySource::Experienced && prov == Provenance::Seeded)) ==> tau_of(default_tau_entries(), d, ty, src, prov) == d,
{
    reveal_with_fuel(tau_of, 15);
}

} // verus!
