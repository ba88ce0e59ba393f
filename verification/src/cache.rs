//! The live instrument-metadata cache.
//!
//! One writer (the market worker) populates the cache in a single bulk
//! replacement and then keeps it fresh with whole-entry upserts; any number
//! of readers query it by symbol. Every update replaces a whole entry, so a
//! reader only ever observes complete instruments, never a partially
//! updated one.

use vstd::prelude::*;

use crate::instrument::{Instrument, InstrumentModel};

verus! {

/// The map described by a sequence of whole-instrument upserts applied, in
/// order, to `m0`. A later upsert of the same symbol wins.
pub open spec fn apply_upserts(
    m0: Map<Seq<char>, InstrumentModel>,
    ups: Seq<InstrumentModel>,
) -> Map<Seq<char>, InstrumentModel>
    decreases ups.len(),
{
    if ups.len() == 0 {
        m0
    } else {
        apply_upserts(m0, ups.drop_last()).insert(ups.last().symbol, ups.last())
    }
}

/// The map holding exactly the instruments of `ups`, later entries winning.
pub open spec fn applied(ups: Seq<InstrumentModel>) -> Map<Seq<char>, InstrumentModel> {
    apply_upserts(Map::empty(), ups)
}

/// The last upsert in `ups` whose symbol is `k`, if any.
pub open spec fn last_matching(ups: Seq<InstrumentModel>, k: Seq<char>) -> Option<
    InstrumentModel,
>
    decreases ups.len(),
{
    if ups.len() == 0 {
        None
    } else if ups.last().symbol == k {
        Some(ups.last())
    } else {
        last_matching(ups.drop_last(), k)
    }
}

/// Readers only observe whole instruments: after any sequence of upserts is
/// applied to an initial map, the value found under a symbol is either the
/// complete instrument that the initial map held, or the complete instrument
/// of the last upsert with that symbol — never a value mixing fields of the
/// two.
pub proof fn lemma_reads_observe_whole_instruments(
    m0: Map<Seq<char>, InstrumentModel>,
    ups: Seq<InstrumentModel>,
    k: Seq<char>,
)
    ensures
        apply_upserts(m0, ups).contains_key(k) <==> (m0.contains_key(k) || last_matching(
            ups,
            k,
        ) is Some),
        match last_matching(ups, k) {
            Some(inst) => apply_upserts(m0, ups).contains_key(k) && apply_upserts(m0, ups)[k]
                == inst,
            None => apply_upserts(m0, ups).contains_key(k) ==> apply_upserts(m0, ups)[k] == m0[k],
        },
    decreases ups.len(),
{
    if ups.len() > 0 {
        lemma_reads_observe_whole_instruments(m0, ups.drop_last(), k);
    }
}

/// Whether no two instruments of `s` share a symbol.
pub open spec fn unique_symbols(s: Seq<InstrumentModel>) -> bool {
    forall|i: int, j: int|
        0 <= i < j < s.len() ==> #[trigger] s[i].symbol != #[trigger] s[j].symbol
}

/// The process-wide cache of instrument metadata, keyed by symbol.
pub struct InstrumentCache {
    entries: Vec<Instrument>,
}

impl View for InstrumentCache {
    type V = Map<Seq<char>, InstrumentModel>;

    closed spec fn view(&self) -> Map<Seq<char>, InstrumentModel> {
        applied(self.entries@.map_values(|inst: Instrument| inst@))
    }
}

impl InstrumentCache {
    /// The cache's internal invariant: entries are keyed by distinct symbols.
    pub closed spec fn wf(&self) -> bool {
        unique_symbols(self.entries@.map_values(|inst: Instrument| inst@))
    }

    /// An empty cache.
    pub fn new() -> (r: InstrumentCache)
        ensures
            r.wf(),
            r@ == Map::<Seq<char>, InstrumentModel>::empty(),
    {
        InstrumentCache { entries: Vec::new() }
    }

    /// Looks up the instrument stored under `symbol`, if any. Non-blocking;
    /// always answers from the current snapshot.
    pub fn get(&self, symbol: &str) -> (r: Option<&Instrument>)
        requires
            self.wf(),
        ensures
            match r {
                Some(inst) => self@.contains_key(symbol@) && inst@ == self@[symbol@],
                None => !self@.contains_key(symbol@),
            },
    {
        let key: String = symbol.to_owned();
        let ghost s = self.entries@.map_values(|inst: Instrument| inst@);
        let mut i: usize = 0;
        while i < self.entries.len()
            invariant
                self.wf(),
                s == self.entries@.map_values(|inst: Instrument| inst@),
                key@ == symbol@,
                i <= self.entries.len(),
                forall|j: int| 0 <= j < i ==> #[trigger] s[j].symbol != symbol@,
            decreases self.entries.len() - i,
        {
            if self.entries[i].symbol == key {
                proof {
                    lemma_applied_get(s, i as int);
                }
                return Some(&self.entries[i]);
            }
            i += 1;
        }
        proof {
            lemma_applied_contains(s, symbol@);
        }
        None
    }

    /// Inserts or replaces, as one whole entry, the instrument stored under
    /// `inst`'s symbol; no other entry changes.
    pub fn upsert(&mut self, inst: Instrument)
        requires
            old(self).wf(),
        ensures
            final(self).wf(),
            final(self)@ == old(self)@.insert(inst@.symbol, inst@),
    {
        let ghost s = self.entries@.map_values(|x: Instrument| x@);
        let mut i: usize = 0;
        while i < self.entries.len()
            invariant
                self.wf(),
                self == old(self),
                s == self.entries@.map_values(|x: Instrument| x@),
                i <= self.entries.len(),
                forall|j: int| 0 <= j < i ==> #[trigger] s[j].symbol != inst@.symbol,
            decreases self.entries.len() - i,
        {
            if self.entries[i].symbol == inst.symbol {
                self.entries[i] = inst;
                proof {
                    assert(self.entries@.map_values(|x: Instrument| x@) =~= s.update(
                        i as int,
                        inst@,
                    ));
                    lemma_applied_update(s, i as int, inst@);
                }
                return ;
            }
            i += 1;
        }
        self.entries.push(inst);
        proof {
            assert(self.entries@.map_values(|x: Instrument| x@) =~= s.push(inst@));
            assert(s.push(inst@).drop_last() =~= s);
            lemma_applied_contains(s, inst@.symbol);
            assert(unique_symbols(s.push(inst@)));
        }
    }

    /// Replaces the whole cache with the given bulk-fetched snapshot. If the
    /// snapshot names a symbol twice, the later entry wins.
    pub fn init_from(&mut self, list: Vec<Instrument>)
        requires
            old(self).wf(),
        ensures
            final(self).wf(),
            final(self)@ == applied(list@.map_values(|x: Instrument| x@)),
    {
        let ghost l = list@.map_values(|x: Instrument| x@);
        self.entries = Vec::new();
        let mut list = list;
        let mut i: usize = 0;
        assert(l.subrange(0, 0) =~= Seq::<InstrumentModel>::empty());
        while i < list.len()
            invariant
                self.wf(),
                list@.map_values(|x: Instrument| x@) == l,
                i <= list.len(),
                self@ == applied(l.subrange(0, i as int)),
            decreases list.len() - i,
        {
            let inst = list[i].clone();
            self.upsert(inst);
            proof {
                assert(l.subrange(0, i + 1).drop_last() =~= l.subrange(0, i as int));
                assert(l.subrange(0, i + 1).last() == l[i as int]);
            }
            i += 1;
        }
        proof {
            assert(l.subrange(0, l.len() as int) =~= l);
        }
    }
}

/// A symbol is in the applied map exactly when some upsert carries it.
proof fn lemma_applied_contains(s: Seq<InstrumentModel>, k: Seq<char>)
    ensures
        applied(s).contains_key(k) <==> exists|i: int| 0 <= i < s.len() && s[i].symbol == k,
    decreases s.len(),
{
    lemma_reads_observe_whole_instruments(Map::empty(), s, k);
    lemma_last_matching_exists(s, k);
}

/// `last_matching` finds an entry exactly when one exists.
proof fn lemma_last_matching_exists(s: Seq<InstrumentModel>, k: Seq<char>)
    ensures
        last_matching(s, k) is Some <==> exists|i: int| 0 <= i < s.len() && s[i].symbol == k,
    decreases s.len(),
{
    if s.len() > 0 {
        lemma_last_matching_exists(s.drop_last(), k);
        if s.last().symbol == k {
            assert(s[s.len() - 1].symbol == k);
        } else if exists|i: int| 0 <= i < s.len() && s[i].symbol == k {
            let i = choose|i: int| 0 <= i < s.len() && s[i].symbol == k;
            assert(s.drop_last()[i] == s[i]);
        }
    }
}

/// Under distinct symbols, the applied map sends each entry's symbol to
/// exactly that entry.
proof fn lemma_applied_get(s: Seq<InstrumentModel>, i: int)
    requires
        unique_symbols(s),
        0 <= i < s.len(),
    ensures
        applied(s).contains_key(s[i].symbol),
        applied(s)[s[i].symbol] == s[i],
    decreases s.len(),
{
    if i == s.len() - 1 {
    } else {
        assert(unique_symbols(s.drop_last())) by {
            assert(forall|x: int, y: int|
                0 <= x < y < s.drop_last().len() ==> s.drop_last()[x] == s[x] && s.drop_last()[y]
                    == s[y]);
        }
        lemma_applied_get(s.drop_last(), i);
        assert(s.drop_last()[i] == s[i]);
    }
}

/// Replacing the entry that already holds a symbol is, on the applied map,
/// one whole-entry insertion under that symbol.
proof fn lemma_applied_update(s: Seq<InstrumentModel>, i: int, x: InstrumentModel)
    requires
        unique_symbols(s),
        0 <= i < s.len(),
        x.symbol == s[i].symbol,
    ensures
        unique_symbols(s.update(i, x)),
        applied(s.update(i, x)) == applied(s).insert(x.symbol, x),
    decreases s.len(),
{
    assert(unique_symbols(s.update(i, x))) by {
        assert(forall|a: int|
            0 <= a < s.len() ==> #[trigger] s.update(i, x)[a].symbol == s[a].symbol);
    }
    if i == s.len() - 1 {
        assert(s.update(i, x).drop_last() =~= s.drop_last());
        assert(s.update(i, x).last() == x);
        assert(applied(s.update(i, x)) == applied(s.drop_last()).insert(x.symbol, x));
        assert(applied(s).insert(x.symbol, x) == applied(s.drop_last()).insert(
            s.last().symbol,
            s.last(),
        ).insert(x.symbol, x));
        assert(applied(s.drop_last()).insert(x.symbol, x) =~= applied(s.drop_last()).insert(
            s.last().symbol,
            s.last(),
        ).insert(x.symbol, x));
    } else {
        assert(unique_symbols(s.drop_last())) by {
            assert(forall|a: int, b: int|
                0 <= a < b < s.drop_last().len() ==> s.drop_last()[a] == s[a] && s.drop_last()[b]
                    == s[b]);
        }
        lemma_applied_update(s.drop_last(), i, x);
        assert(s.update(i, x).drop_last() =~= s.drop_last().update(i, x));
        assert(s.update(i, x).last() == s.last());
        // the two inserted symbols differ, so the insertions commute
        assert(s.last().symbol != x.symbol) by {
            assert(s[i].symbol != s[s.len() - 1].symbol);
        }
        assert(applied(s.update(i, x)) == applied(s.drop_last()).insert(x.symbol, x).insert(
            s.last().symbol,
            s.last(),
        ));
        assert(applied(s.drop_last()).insert(x.symbol, x).insert(s.last().symbol, s.last())
            =~= applied(s.drop_last()).insert(s.last().symbol, s.last()).insert(x.symbol, x));
    }
}

} // verus!
