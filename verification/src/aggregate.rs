//! The aggregate store: for every kind, the distinct texts that were
//! recorded for it over a whole run.

use vstd::prelude::*;
use crate::taxonomy::{lemma_rank_names_kind, StringType, KIND_COUNT};

verus! {

/// A list of distinct texts after `text` was recorded in it: unchanged if
/// the text is there already, else with the text at the end.
pub open spec fn with_text(texts: Seq<Seq<char>>, text: Seq<char>) -> Seq<Seq<char>> {
    if texts.contains(text) {
        texts
    } else {
        texts.push(text)
    }
}

/// The store as a mathematical value: for every kind, the texts recorded
/// for it, in the order in which each was first recorded.
pub type Ledger = Map<StringType, Seq<Seq<char>>>;

/// The ledger in which nothing is recorded.
pub open spec fn blank_ledger() -> Ledger {
    Map::new(|kind: StringType| true, |kind: StringType| Seq::<Seq<char>>::empty())
}

/// Nothing is recorded in the ledger.
pub open spec fn is_blank(ledger: Ledger) -> bool {
    forall|kind: StringType| (#[trigger] ledger[kind]).len() == 0
}

/// The ledger after `text` was recorded under `kind`.
pub open spec fn recorded(ledger: Ledger, kind: StringType, text: Seq<char>) -> Ledger {
    ledger.insert(kind, with_text(ledger[kind], text))
}

/// No kind of the ledger holds a text twice.
pub open spec fn is_distinct(ledger: Ledger) -> bool {
    forall|kind: StringType| (#[trigger] ledger[kind]).no_duplicates()
}

/// Recording keeps the texts of every kind distinct.
pub proof fn lemma_recorded_is_distinct(ledger: Ledger, kind: StringType, text: Seq<char>)
    requires
        is_distinct(ledger),
    ensures
        is_distinct(recorded(ledger, kind, text)),
{
    let after = recorded(ledger, kind, text);
    assert forall|other: StringType| (#[trigger] after[other]).no_duplicates() by {
        assert(ledger[other].no_duplicates());
        if other == kind && !ledger[kind].contains(text) {
            let grown = ledger[kind].push(text);
            assert forall|i: int, j: int| 0 <= i < grown.len() && 0 <= j < grown.len() && i != j implies grown[i] != grown[j] by {
                if i < ledger[kind].len() && j < ledger[kind].len() {
                } else if i < ledger[kind].len() {
                    assert(ledger[kind][i] != text);
                } else {
                    assert(ledger[kind][j] != text);
                }
            }
        }
    }
}

/// Recording a text adds it to the set of the kind's texts: the texts of
/// the kind are afterwards those from before and the new one.
pub proof fn lemma_recorded_as_sets(ledger: Ledger, kind: StringType, text: Seq<char>)
    ensures
        recorded(ledger, kind, text)[kind].to_set() == ledger[kind].to_set().insert(text),
        recorded(ledger, kind, text)[kind].len() > 0,
{
    let shorter = ledger[kind];
    let grown = with_text(shorter, text);
    if shorter.contains(text) {
        assert(grown.to_set() =~= shorter.to_set().insert(text));
        let j = choose|j: int| 0 <= j < shorter.len() && shorter[j] == text;
    } else {
        assert forall|t: Seq<char>| grown.contains(t) implies shorter.to_set().insert(
            text,
        ).contains(t) by {
            let j = choose|j: int| 0 <= j < grown.len() && grown[j] == t;
            if j < shorter.len() {
                assert(shorter[j] == t);
            }
        }
        assert forall|t: Seq<char>| shorter.to_set().insert(text).contains(t) implies grown.contains(
            t,
        ) by {
            if shorter.contains(t) {
                let j = choose|j: int| 0 <= j < shorter.len() && shorter[j] == t;
                assert(grown[j] == t);
            } else {
                assert(grown[shorter.len() as int] == t);
            }
        }
        assert(grown.to_set() =~= shorter.to_set().insert(text));
    }
}

/// The store: for every kind, the distinct texts recorded for it, in the
/// order in which each was first recorded.
pub struct Aggregate {
    /// One list per kind, at the kind's rank; no list at all as long as
    /// nothing was recorded.
    slots: Vec<Vec<String>>,
    /// An empty list, to hand out for any kind while there are no slots.
    nothing: Vec<String>,
}

impl View for Aggregate {
    type V = Map<StringType, Set<Seq<char>>>;

    /// The store as a map from each kind that has a text to the set of its
    /// texts. A kind without texts is not in the map.
    open spec fn view(&self) -> Map<StringType, Set<Seq<char>>> {
        Map::new(
            |kind: StringType| self.ledger()[kind].len() > 0,
            |kind: StringType| self.ledger()[kind].to_set(),
        )
    }
}

impl Aggregate {
    #[verifier::type_invariant]
    spec fn texts_once_per_kind(self) -> bool {
        &&& self.nothing.len() == 0
        &&& self.slots.len() == 0 || self.slots.len() == KIND_COUNT
        &&& forall|i: int|
            0 <= i < self.slots.len() ==> (#[trigger] self.slots[i]).deep_view().no_duplicates()
    }

    /// What the store holds, kind by kind.
    pub closed spec fn ledger(&self) -> Ledger {
        Map::new(
            |kind: StringType| true,
            |kind: StringType|
                if self.slots.len() == 0 {
                    Seq::<Seq<char>>::empty()
                } else {
                    self.slots[kind.rank_of()].deep_view()
                },
        )
    }

    /// The texts recorded for `kind`, in the order of first recording.
    pub open spec fn texts(&self, kind: StringType) -> Seq<Seq<char>> {
        self.ledger()[kind]
    }

    /// The empty store.
    pub fn new() -> (r: Aggregate)
        ensures
            r.ledger() == blank_ledger(),
            r@ == Map::<StringType, Set<Seq<char>>>::empty(),
    {
        let r = Aggregate { slots: Vec::new(), nothing: Vec::new() };
        assert(r.ledger() =~= blank_ledger());
        assert(r@ =~= Map::<StringType, Set<Seq<char>>>::empty());
        r
    }

    /// The texts recorded for `kind`, in the order of first recording. No
    /// text occurs twice among them.
    pub fn texts_of(&self, kind: StringType) -> (r: &Vec<String>)
        ensures
            r.deep_view() == self.texts(kind),
            r.deep_view().no_duplicates(),
    {
        proof {
            use_type_invariant(self);
        }
        if self.slots.len() == 0 {
            assert(self.nothing.deep_view() =~= Seq::<Seq<char>>::empty());
            &self.nothing
        } else {
            &self.slots[kind.rank()]
        }
    }

    /// How many distinct texts were recorded for `kind`.
    pub fn count(&self, kind: StringType) -> (r: usize)
        ensures
            r == self.texts(kind).len(),
    {
        self.texts_of(kind).len()
    }

    /// Whether `text` was recorded for `kind`.
    pub fn contains(&self, kind: StringType, text: &String) -> (r: bool)
        ensures
            r == self.texts(kind).contains(text@),
    {
        let slot = self.texts_of(kind);
        let mut j: usize = 0;
        while j < slot.len()
            invariant
                j <= slot.len(),
                slot.deep_view() == self.texts(kind),
                forall|k: int| 0 <= k < j ==> slot.deep_view()[k] != text@,
            decreases slot.len() - j,
        {
            if slot[j] == *text {
                assert(slot.deep_view()[j as int] == text@);
                return true;
            }
            j += 1;
        }
        false
    }

    /// Records `text` under `kind`: a text that is new for the kind joins
    /// the kind's texts, one that is there already changes nothing. Other
    /// kinds are not touched, and no kind ever holds a text twice.
    pub fn record(&mut self, kind: StringType, text: String)
        ensures
            final(self).ledger() == recorded(old(self).ledger(), kind, text@),
            final(self).texts(kind) == with_text(old(self).texts(kind), text@),
            final(self).texts(kind).no_duplicates(),
            forall|other: StringType|
                other != kind ==> #[trigger] final(self).texts(other) == old(self).texts(other),
            is_distinct(old(self).ledger()),
            is_distinct(final(self).ledger()),
            final(self)@ == old(self)@.insert(
                kind,
                (if old(self)@.dom().contains(kind) {
                    old(self)@[kind]
                } else {
                    Set::empty()
                }).insert(text@),
            ),
    {
        proof {
            use_type_invariant(&*self);
            old(self).lemma_ledger_is_distinct();
            lemma_recorded_is_distinct(old(self).ledger(), kind, text@);
            lemma_rank_names_kind(kind);
        }
        let at: usize = kind.rank();
        if !self.contains(kind, &text) {
            let mut slots: Vec<Vec<String>> = Vec::new();
            std::mem::swap(&mut self.slots, &mut slots);
            if slots.len() == 0 {
                slots = blank_slots();
            }
            let ghost before = slots;
            assert(before[at as int].deep_view() == old(self).texts(kind));
            slots[at].push(text);
            assert(slots[at as int].deep_view() =~= before[at as int].deep_view().push(text@));
            assert forall|i: int| 0 <= i < KIND_COUNT implies (#[trigger] slots[i]).deep_view()
                == recorded(old(self).ledger(), kind, text@)[StringType::by_name()[i]] by {
                lemma_rank_names_kind(StringType::by_name()[i]);
                if i != at {
                    assert(slots[i] == before[i]);
                    assert(before[i].deep_view() == old(self).ledger()[StringType::by_name()[i]]);
                }
            }
            assert forall|i: int| 0 <= i < slots.len() implies (#[trigger] slots[i]).deep_view().no_duplicates() by {
                let named = StringType::by_name()[i];
                assert(recorded(old(self).ledger(), kind, text@)[named].no_duplicates());
            }
            std::mem::swap(&mut self.slots, &mut slots);
            assert forall|other: StringType| #[trigger] self.ledger()[other] == recorded(
                old(self).ledger(),
                kind,
                text@,
            )[other] by {
                lemma_rank_names_kind(other);
            }
        }
        proof {
            assert(self.ledger() =~= recorded(old(self).ledger(), kind, text@));
            lemma_recorded_as_sets(old(self).ledger(), kind, text@);
            let old_set = if old(self)@.dom().contains(kind) {
                old(self)@[kind]
            } else {
                Set::empty()
            };
            assert(old_set =~= old(self).texts(kind).to_set());
            assert(self@ =~= old(self)@.insert(kind, old_set.insert(text@)));
        }
    }

    /// No text occurs twice under one kind.
    proof fn lemma_ledger_is_distinct(&self)
        requires
            self.texts_once_per_kind(),
        ensures
            is_distinct(self.ledger()),
    {
        assert forall|kind: StringType| (#[trigger] self.ledger()[kind]).no_duplicates() by {
            lemma_rank_names_kind(kind);
        }
    }
}

/// One empty list per kind.
fn blank_slots() -> (r: Vec<Vec<String>>)
    ensures
        r.len() == KIND_COUNT,
        forall|i: int| 0 <= i < KIND_COUNT ==> (#[trigger] r[i]).deep_view() == Seq::<
            Seq<char>,
        >::empty(),
{
    let mut slots: Vec<Vec<String>> = Vec::new();
    let mut i: usize = 0;
    while i < KIND_COUNT
        invariant
            i <= KIND_COUNT,
            slots.len() == i,
            forall|j: int| 0 <= j < i ==> (#[trigger] slots[j]).len() == 0,
        decreases KIND_COUNT - i,
    {
        slots.push(Vec::new());
        i += 1;
    }
    assert forall|i: int| 0 <= i < KIND_COUNT implies (#[trigger] slots[i]).deep_view() == Seq::<
        Seq<char>,
    >::empty() by {
        assert(slots[i].deep_view() =~= Seq::<Seq<char>>::empty());
    }
    slots
}

} // verus!
