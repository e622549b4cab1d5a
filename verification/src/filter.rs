//! The filter: which kinds a run lets through. An include list, when there
//! is one, decides alone; otherwise everything passes that is neither on the
//! exclude list nor, unless that is switched off, among the noisy kinds
//! suppressed by default.

use vstd::prelude::*;
use crate::taxonomy::{StringType, TypeFilter};

verus! {

/// A finite set of kinds.
pub struct KindSet {
    kinds: Vec<StringType>,
}

impl View for KindSet {
    type V = Set<StringType>;

    closed spec fn view(&self) -> Set<StringType> {
        self.kinds@.to_set()
    }
}

impl KindSet {
    #[verifier::type_invariant]
    spec fn each_kind_once(self) -> bool {
        self.kinds@.no_duplicates()
    }

    /// The empty set.
    pub fn new() -> (r: KindSet)
        ensures
            r@ == Set::<StringType>::empty(),
    {
        let r = KindSet { kinds: Vec::new() };
        assert(r@ =~= Set::<StringType>::empty());
        r
    }

    /// Whether `kind` is a member.
    pub fn contains(&self, kind: StringType) -> (r: bool)
        ensures
            r == self@.contains(kind),
    {
        let mut i: usize = 0;
        while i < self.kinds.len()
            invariant
                i <= self.kinds.len(),
                forall|j: int| 0 <= j < i ==> self.kinds@[j] != kind,
            decreases self.kinds.len() - i,
        {
            if self.kinds[i] == kind {
                return true;
            }
            i += 1;
        }
        false
    }

    /// Adds `kind`; says whether it was new.
    pub fn insert(&mut self, kind: StringType) -> (fresh: bool)
        ensures
            final(self)@ == old(self)@.insert(kind),
            fresh == !old(self)@.contains(kind),
    {
        proof {
            use_type_invariant(&*self);
        }
        if self.contains(kind) {
            assert(self@ =~= self@.insert(kind));
            false
        } else {
            let ghost before = self.kinds@;
            let mut kinds: Vec<StringType> = Vec::new();
            std::mem::swap(&mut self.kinds, &mut kinds);
            kinds.push(kind);
            std::mem::swap(&mut self.kinds, &mut kinds);
            assert(self.kinds@ == before.push(kind));
            assert(self.kinds@.to_set() =~= before.to_set().insert(kind)) by {
                assert forall|k: StringType| self.kinds@.contains(k) implies before.to_set().insert(
                    kind,
                ).contains(k) by {
                    let j = choose|j: int| 0 <= j < self.kinds@.len() && self.kinds@[j] == k;
                    if j < before.len() {
                        assert(before[j] == k);
                    }
                }
                assert forall|k: StringType|
                    before.to_set().insert(kind).contains(k) implies self.kinds@.contains(k) by {
                    if k == kind {
                        assert(self.kinds@[before.len() as int] == k);
                    } else {
                        let j = choose|j: int| 0 <= j < before.len() && before[j] == k;
                        assert(self.kinds@[j] == k);
                    }
                }
            }
            true
        }
    }

    /// Adds every kind of `kinds`.
    pub fn extend(&mut self, kinds: &Vec<StringType>)
        ensures
            final(self)@ == old(self)@.union(kinds@.to_set()),
    {
        let mut i: usize = 0;
        assert(self@ =~= old(self)@.union(kinds@.take(0).to_set()));
        while i < kinds.len()
            invariant
                i <= kinds.len(),
                self@ == old(self)@.union(kinds@.take(i as int).to_set()),
            decreases kinds.len() - i,
        {
            let ghost before = self@;
            self.insert(kinds[i]);
            assert(kinds@.take(i + 1).to_set() =~= kinds@.take(i as int).to_set().insert(
                kinds@[i as int],
            )) by {
                let longer = kinds@.take(i + 1);
                let shorter = kinds@.take(i as int);
                assert forall|k: StringType| longer.contains(k) implies shorter.to_set().insert(
                    kinds@[i as int],
                ).contains(k) by {
                    let j = choose|j: int| 0 <= j < longer.len() && longer[j] == k;
                    if j < i {
                        assert(shorter[j] == k);
                    }
                }
                assert forall|k: StringType|
                    shorter.to_set().insert(kinds@[i as int]).contains(k) implies longer.contains(
                    k,
                ) by {
                    if shorter.contains(k) {
                        let j = choose|j: int| 0 <= j < shorter.len() && shorter[j] == k;
                        assert(longer[j] == k);
                    } else {
                        assert(longer[i as int] == k);
                    }
                }
            }
            assert(self@ =~= old(self)@.union(kinds@.take(i + 1).to_set()));
            i += 1;
        }
        assert(kinds@.take(i as int) =~= kinds@);
    }
}

/// The kinds that a list of filters stands for: the union of what each
/// filter expands to.
pub open spec fn expanded(filters: Seq<TypeFilter>) -> Set<StringType> {
    Set::new(
        |kind: StringType|
            exists|i: int| 0 <= i < filters.len() && (#[trigger] filters[i]).members().contains(kind),
    )
}

/// The kinds that are suppressed by default.
pub open spec fn default_disabled() -> Set<StringType> {
    StringType::default_disabled_kinds().to_set()
}

proof fn lemma_expanded_step(filters: Seq<TypeFilter>, n: int)
    requires
        0 <= n < filters.len(),
    ensures
        expanded(filters.take(n + 1)) == expanded(filters.take(n)).union(
            filters[n].members().to_set(),
        ),
{
    let longer = filters.take(n + 1);
    let shorter = filters.take(n);
    assert forall|k: StringType| expanded(longer).contains(k) implies expanded(shorter).union(
        filters[n].members().to_set(),
    ).contains(k) by {
        let i = choose|i: int| 0 <= i < longer.len() && (#[trigger] longer[i]).members().contains(k);
        if i < n {
            assert(shorter[i].members().contains(k));
        }
    }
    assert forall|k: StringType|
        expanded(shorter).union(filters[n].members().to_set()).contains(k) implies expanded(
        longer,
    ).contains(k) by {
        if expanded(shorter).contains(k) {
            let i = choose|i: int|
                0 <= i < shorter.len() && (#[trigger] shorter[i]).members().contains(k);
            assert(longer[i].members().contains(k));
        } else {
            assert(longer[n].members().contains(k));
        }
    }
    assert(expanded(longer) =~= expanded(shorter).union(filters[n].members().to_set()));
}

/// The set of kinds that a list of filters stands for.
fn expand(filters: &Vec<TypeFilter>) -> (r: KindSet)
    ensures
        r@ == expanded(filters@),
{
    let mut r = KindSet::new();
    let mut i: usize = 0;
    assert(r@ =~= expanded(filters@.take(0)));
    while i < filters.len()
        invariant
            i <= filters.len(),
            r@ == expanded(filters@.take(i as int)),
        decreases filters.len() - i,
    {
        let members = filters[i].to_string_types();
        r.extend(&members);
        proof {
            lemma_expanded_step(filters@, i as int);
        }
        i += 1;
    }
    assert(filters@.take(i as int) =~= filters@);
    r
}

/// The resolved configuration of a run.
#[derive(Debug)]
pub struct Args {
    /// Show counts only, not the strings themselves.
    pub analyze: bool,
    /// The most strings to show per kind; none or zero means no limit.
    pub max_items: Option<usize>,
    /// Do not suppress the noisy kinds that are suppressed by default.
    pub no_defaults: bool,
    /// The include list: if it is not empty, only these kinds pass.
    pub with: Vec<TypeFilter>,
    /// The exclude list: these kinds do not pass.
    pub without: Vec<TypeFilter>,
}

/// The configuration of a run as a mathematical value.
pub struct Configuration {
    /// Show counts only, not the strings themselves.
    pub analyze: bool,
    /// The most strings to show per kind; none or zero means no limit.
    pub max_items: Option<usize>,
    /// Do not suppress the noisy kinds that are suppressed by default.
    pub no_defaults: bool,
    /// The include list.
    pub with: Seq<TypeFilter>,
    /// The exclude list.
    pub without: Seq<TypeFilter>,
}

impl Configuration {
    /// The kinds that do not pass when there is no include list: the
    /// expanded exclude list, and the default-suppressed kinds unless they
    /// are switched back on.
    pub open spec fn excluded(self) -> Set<StringType> {
        if self.no_defaults {
            expanded(self.without)
        } else {
            expanded(self.without).union(default_disabled())
        }
    }

    /// Whether a candidate of kind `kind` passes the filter. A non-empty
    /// include list decides alone; the exclude list and the defaults are
    /// then not consulted.
    pub open spec fn includes(self, kind: StringType) -> bool {
        if self.with.len() > 0 {
            expanded(self.with).contains(kind)
        } else {
            !self.excluded().contains(kind)
        }
    }
}

/// With a non-empty include list, the exclude list and the default
/// suppression do not matter: two configurations with the same include list
/// let the same kinds pass.
pub proof fn lemma_include_list_alone_decides(
    first: Configuration,
    second: Configuration,
    kind: StringType,
)
    requires
        first.with.len() > 0,
        first.with == second.with,
    ensures
        first.includes(kind) == second.includes(kind),
        first.includes(kind) == expanded(first.with).contains(kind),
{
}

impl View for Args {
    type V = Configuration;

    open spec fn view(&self) -> Configuration {
        Configuration {
            analyze: self.analyze,
            max_items: self.max_items,
            no_defaults: self.no_defaults,
            with: self.with@,
            without: self.without@,
        }
    }
}

impl Args {
    /// The expanded include list, if there is one.
    pub fn build_included_types(&self) -> (r: Option<KindSet>)
        ensures
            self.with@.len() == 0 <==> r is None,
            r matches Some(set) ==> set@ == expanded(self.with@),
    {
        if self.with.len() == 0 {
            None
        } else {
            Some(expand(&self.with))
        }
    }

    /// The expanded exclude list.
    pub fn build_excluded_types(&self) -> (r: KindSet)
        ensures
            r@ == expanded(self.without@),
    {
        expand(&self.without)
    }

    /// Whether a candidate of kind `string_type` passes the filter. With an
    /// include list, that list alone decides.
    pub fn should_include_type(&self, string_type: StringType) -> (r: bool)
        ensures
            r == self@.includes(string_type),
            self.with@.len() > 0 ==> r == expanded(self.with@).contains(string_type),
            self.with@.len() == 0 ==> r == !self@.excluded().contains(string_type),
    {
        if let Some(included) = self.build_included_types() {
            return included.contains(string_type);
        }
        let mut excluded = self.build_excluded_types();
        if !self.no_defaults {
            excluded.extend(&StringType::default_disabled_types());
        }
        !excluded.contains(string_type)
    }
}

} // verus!
