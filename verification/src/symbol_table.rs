//! The variable store: the mapping from declared symbols to their
//! current runtime values.
//!
//! The store keeps one entry per name. Inserting under an existing name
//! replaces the value but keeps the symbol recorded at the first insert,
//! matching a map whose keys compare by name alone.

use vstd::prelude::*;

use crate::literals::LiteralValue;
use crate::literals::LiteralValueV;
use crate::text::str_eq;
use crate::variable_symbol::SymV;
use crate::variable_symbol::VariableSymbol;

verus! {

/// The mathematical value of one store entry.
pub struct EntryV {
    pub sym: SymV,
    pub value: Option<LiteralValueV>,
}

/// The mathematical value of the store: its entries in insertion order.
pub type StoreV = Seq<EntryV>;

/// The view of an optional literal value.
pub open spec fn opt_value_view(v: Option<LiteralValue>) -> Option<LiteralValueV> {
    match v {
        Option::Some(x) => Option::Some(x@),
        Option::None => Option::None,
    }
}

/// The position of the entry for `id`, or -1 when no entry has it.
pub open spec fn spec_find_index(t: StoreV, id: Seq<char>) -> int
    decreases t.len(),
{
    if t.len() == 0 {
        -1
    } else if t[0].sym.id == id {
        0
    } else {
        let r = spec_find_index(t.drop_first(), id);
        if r < 0 {
            -1
        } else {
            r + 1
        }
    }
}

/// Whether the store has an entry for `id`.
pub open spec fn spec_contains_id(t: StoreV, id: Seq<char>) -> bool {
    spec_find_index(t, id) >= 0
}

/// The symbol recorded for `id`, when the store has one.
pub open spec fn spec_symbol_of(t: StoreV, id: Seq<char>) -> Option<SymV> {
    let i = spec_find_index(t, id);
    if i >= 0 {
        Option::Some(t[i].sym)
    } else {
        Option::None
    }
}

/// The value recorded for `id`: nothing when the store lacks the name,
/// otherwise the entry's (possibly still unset) value.
pub open spec fn spec_value_of(t: StoreV, id: Seq<char>) -> Option<Option<LiteralValueV>> {
    let i = spec_find_index(t, id);
    if i >= 0 {
        Option::Some(t[i].value)
    } else {
        Option::None
    }
}

/// The store after inserting `sym` with `value`: an existing entry with
/// the same name keeps its recorded symbol and takes the new value; a
/// new name is appended.
pub open spec fn spec_insert(t: StoreV, sym: SymV, value: Option<LiteralValueV>) -> StoreV {
    let i = spec_find_index(t, sym.id);
    if i >= 0 {
        t.update(i, EntryV { sym: t[i].sym, value })
    } else {
        t.push(EntryV { sym, value })
    }
}

/// The store restricted to entries whose symbols are global.
pub open spec fn spec_retain_globals(t: StoreV) -> StoreV {
    t.filter(|e: EntryV| e.sym.is_global)
}

/// Finding an index always lands inside the store, on the named entry,
/// and on no entry before it.
pub proof fn lemma_find_index(t: StoreV, id: Seq<char>)
    ensures
        spec_find_index(t, id) >= 0 ==> spec_find_index(t, id) < t.len() && t[spec_find_index(
            t,
            id,
        )].sym.id == id,
        spec_find_index(t, id) < 0 ==> spec_find_index(t, id) == -1,
        forall|j: int|
            0 <= j < t.len() && #[trigger] t[j].sym.id == id ==> spec_find_index(t, id) >= 0
                && spec_find_index(t, id) <= j,
    decreases t.len(),
{
    if t.len() > 0 {
        lemma_find_index(t.drop_first(), id);
        if t[0].sym.id != id {
            assert forall|j: int|
                0 <= j < t.len() && #[trigger] t[j].sym.id == id implies spec_find_index(t, id)
                >= 0 && spec_find_index(t, id) <= j by {
                assert(t.drop_first()[j - 1] == t[j]);
            }
            if spec_find_index(t.drop_first(), id) >= 0 {
                assert(t[spec_find_index(t, id)] == t.drop_first()[spec_find_index(
                    t.drop_first(),
                    id,
                )]);
            }
        }
    }
}

/// When an entry at `i` holds `id` and no earlier entry does, `i` is
/// the found index.
pub proof fn lemma_find_first(t: StoreV, id: Seq<char>, i: int)
    requires
        0 <= i < t.len(),
        t[i].sym.id == id,
        forall|j: int| 0 <= j < i ==> t[j].sym.id != id,
    ensures
        spec_find_index(t, id) == i,
    decreases t.len(),
{
    if i > 0 {
        assert(t[0].sym.id != id);
        lemma_find_first(t.drop_first(), id, i - 1);
        assert(t.drop_first()[i - 1].sym.id == id);
        assert forall|j: int| 0 <= j < i - 1 implies t.drop_first()[j].sym.id != id by {
            assert(t.drop_first()[j] == t[j + 1]);
        }
    }
}

/// One stored binding.
struct StoreEntry {
    symbol: VariableSymbol,
    value: Option<LiteralValue>,
}

/// The variable store.
pub struct SymbolTable {
    entries: Vec<StoreEntry>,
}

impl View for SymbolTable {
    type V = StoreV;

    closed spec fn view(&self) -> StoreV {
        self.entries@.map_values(
            |e: StoreEntry| EntryV { sym: e.symbol@, value: opt_value_view(e.value) },
        )
    }
}

impl SymbolTable {
    /// An empty store.
    pub fn new() -> (t: SymbolTable)
        ensures
            t@ == Seq::<EntryV>::empty(),
    {
        let t = SymbolTable { entries: Vec::new() };
        proof {
            assert(t@ =~= Seq::<EntryV>::empty());
        }
        t
    }

    /// Removes every entry.
    pub fn clear(&mut self)
        ensures
            final(self)@ == Seq::<EntryV>::empty(),
    {
        self.entries = Vec::new();
        proof {
            assert(final(self)@ =~= Seq::<EntryV>::empty());
        }
    }

    /// The number of entries.
    pub fn len(&self) -> (n: usize)
        ensures
            n == self@.len(),
    {
        self.entries.len()
    }

    /// The position of the entry for `name`, if the store has one.
    fn find_index(&self, name: &str) -> (r: Option<usize>)
        ensures
            match r {
                Option::Some(i) => spec_find_index(self@, name@) == i as int && i < self@.len(),
                Option::None => spec_find_index(self@, name@) == -1,
            },
    {
        let mut i: usize = 0;
        while i < self.entries.len()
            invariant
                0 <= i <= self.entries@.len(),
                self@.len() == self.entries@.len(),
                forall|j: int| 0 <= j < i ==> self@[j].sym.id != name@,
            decreases self.entries.len() - i,
        {
            let sid = self.entries[i].symbol.id();
            if str_eq(sid.as_str(), name) {
                proof {
                    assert(self@[i as int].sym.id == name@);
                    lemma_find_first(self@, name@, i as int);
                }
                return Option::Some(i);
            }
            proof {
                assert(self@[i as int].sym.id != name@);
            }
            i = i + 1;
        }
        proof {
            lemma_find_index(self@, name@);
            if spec_find_index(self@, name@) >= 0 {
                assert(self@[spec_find_index(self@, name@)].sym.id == name@);
            }
        }
        Option::None
    }

    /// Inserts a symbol with a value; an entry already holding the name
    /// keeps its recorded symbol and only takes the new value.
    pub fn insert_into_symbol_table(&mut self, variable: &VariableSymbol, value: Option<
        LiteralValue,
    >)
        ensures
            final(self)@ == spec_insert(old(self)@, variable@, opt_value_view(value)),
    {
        let vid = variable.id();
        let idx = self.find_index(vid.as_str());
        match idx {
            Option::Some(i) => {
                let sym = self.entries[i].symbol.duplicate();
                self.entries.set(i, StoreEntry { symbol: sym, value });
                proof {
                    assert(final(self)@ =~= spec_insert(
                        old(self)@,
                        variable@,
                        opt_value_view(value),
                    ));
                }
            },
            Option::None => {
                self.entries.push(StoreEntry { symbol: variable.duplicate(), value });
                proof {
                    assert(final(self)@ =~= spec_insert(
                        old(self)@,
                        variable@,
                        opt_value_view(value),
                    ));
                }
            },
        }
    }

    /// The symbol recorded for `name`, if the store has one.
    pub fn get_key_from_symbol_table(&self, name: &str) -> (r: Option<VariableSymbol>)
        ensures
            match r {
                Option::Some(s) => spec_symbol_of(self@, name@) == Option::Some(s@),
                Option::None => spec_symbol_of(self@, name@) == Option::<SymV>::None,
            },
    {
        match self.find_index(name) {
            Option::Some(i) => Option::Some(self.entries[i].symbol.duplicate()),
            Option::None => Option::None,
        }
    }

    /// The value recorded for `name`: nothing when the store lacks the
    /// name, otherwise the entry's (possibly still unset) value.
    pub fn get_value_from_symbol_table(&self, name: &str) -> (r: Option<Option<LiteralValue>>)
        ensures
            match r {
                Option::Some(v) => spec_value_of(self@, name@) == Option::Some(opt_value_view(v)),
                Option::None => spec_value_of(self@, name@) == Option::<
                    Option<LiteralValueV>,
                >::None,
            },
    {
        match self.find_index(name) {
            Option::Some(i) => {
                match &self.entries[i].value {
                    Option::Some(v) => Option::Some(Option::Some(v.duplicate())),
                    Option::None => Option::Some(Option::None),
                }
            },
            Option::None => Option::None,
        }
    }

    /// The entry at a position: its symbol and its value.
    pub fn entry_at(&self, i: usize) -> (r: (&VariableSymbol, &Option<LiteralValue>))
        requires
            i < self@.len(),
        ensures
            r.0@ == self@[i as int].sym,
            opt_value_view(*r.1) == self@[i as int].value,
    {
        (&self.entries[i].symbol, &self.entries[i].value)
    }

    /// Keeps only the entries whose symbols are global, in order.
    pub fn retain_globals(&mut self)
        ensures
            final(self)@ == spec_retain_globals(old(self)@),
    {
        let mut kept: Vec<StoreEntry> = Vec::new();
        let ghost orig: StoreV = self@;
        let mut i: usize = 0;
        while i < self.entries.len()
            invariant
                0 <= i <= self.entries@.len(),
                orig == self@,
                orig.len() == self.entries@.len(),
                kept@.map_values(
                    |e: StoreEntry| EntryV { sym: e.symbol@, value: opt_value_view(e.value) },
                ) =~= orig.take(i as int).filter(|e: EntryV| e.sym.is_global),
            decreases self.entries.len() - i,
        {
            proof {
                assert(orig.take(i + 1).drop_last() =~= orig.take(i as int));
                assert(orig.take(i + 1).last() == orig[i as int]);
                reveal_with_fuel(Seq::filter, 2);
            }
            if self.entries[i].symbol.is_global() {
                let v = match &self.entries[i].value {
                    Option::Some(v) => Option::Some(v.duplicate()),
                    Option::None => Option::None,
                };
                kept.push(StoreEntry { symbol: self.entries[i].symbol.duplicate(), value: v });
            }
            i = i + 1;
            proof {
                assert(kept@.map_values(
                    |e: StoreEntry| EntryV { sym: e.symbol@, value: opt_value_view(e.value) },
                ) =~= orig.take(i as int).filter(|e: EntryV| e.sym.is_global));
            }
        }
        proof {
            assert(orig.take(self.entries@.len() as int) =~= orig);
        }
        self.entries = kept;
    }
}

} // verus!
