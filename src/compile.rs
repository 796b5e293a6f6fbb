use vstd::prelude::*;
use crate::model::{
    declared_edge, declared_finish, is_declared, name_at, names_unique, targets_at, CommitStrategy,
    targets_known, targets_known_at, Duplication, SpecError, StateDecl, Value,
};

verus! {

/// A checked specification together with its resolved transition graph.
///
/// `targets[i]` is `None` for a finish state and otherwise holds the indices
/// (tags) of the destinations that the `i`-th state declares, in order.
pub struct Table {
    decls: Vec<StateDecl>,
    targets: Vec<Option<Vec<usize>>>,
    strategy: CommitStrategy,
}

/// The destination list `tv` resolves the transition list of the `i`-th state.
pub open spec fn resolved_at(decls: Seq<StateDecl>, i: int, tv: Option<Vec<usize>>) -> bool {
    match decls[i].transitions {
        None => tv is None,
        Some(ts) => {
            &&& tv is Some
            &&& tv.unwrap()@.len() == ts@.len()
            &&& forall|k: int|
                0 <= k < ts@.len() ==> {
                    &&& (#[trigger] tv.unwrap()@[k]) < decls.len()
                    &&& name_at(decls, tv.unwrap()@[k] as int) == ts@[k]@
                }
        },
    }
}

/// The strategy that a duplication capability selects.
pub open spec fn strategy_for(dup: Duplication) -> CommitStrategy {
    if dup == Duplication::Trivial {
        CommitStrategy::Reuse
    } else {
        CommitStrategy::Duplicate
    }
}

/// The `i`-th state and its `k`-th destination name form an unresolved reference.
pub open spec fn unknown_target(decls: Seq<StateDecl>, i: int, k: int) -> bool {
    &&& 0 <= i < decls.len()
    &&& decls[i].transitions is Some
    &&& 0 <= k < targets_at(decls, i).len()
    &&& !is_declared(decls, targets_at(decls, i)[k]@)
}

/// Two distinct declared states are named `n`.
pub open spec fn duplicated_name(decls: Seq<StateDecl>, n: Seq<char>) -> bool {
    exists|i: int, j: int|
        0 <= i < j < decls.len() && #[trigger] name_at(decls, i) == n && #[trigger] name_at(
            decls,
            j,
        ) == n
}

impl Table {
    /// The declared states, in order.
    pub closed spec fn spec_decls(&self) -> Seq<StateDecl> {
        self.decls@
    }

    /// The number of declared states.
    pub open spec fn size(&self) -> nat {
        self.spec_decls().len()
    }

    /// The resolved destination lists, one per state.
    pub closed spec fn spec_targets(&self) -> Seq<Option<Vec<usize>>> {
        self.targets@
    }

    /// The commit strategy selected for this state type.
    pub closed spec fn spec_strategy(&self) -> CommitStrategy {
        self.strategy
    }

    /// The table is well formed: one resolved list per declared state.
    pub open spec fn wf(&self) -> bool {
        &&& self.size() > 0
        &&& names_unique(self.spec_decls())
        &&& self.spec_targets().len() == self.size()
        &&& forall|i: int|
            0 <= i < self.size() ==> resolved_at(
                self.spec_decls(),
                i,
                #[trigger] self.spec_targets()[i],
            )
    }

    /// A value tagged `from` may change to a value tagged `to`.
    pub open spec fn legal(&self, from: int, to: int) -> bool {
        &&& 0 <= from < self.size()
        &&& self.spec_targets()[from] is Some
        &&& exists|k: int|
            0 <= k < self.spec_targets()[from].unwrap()@.len() && (
            #[trigger] self.spec_targets()[from].unwrap()@[k]) == to
    }

    /// A value tagged `t` is at a finish state.
    pub open spec fn finish(&self, t: int) -> bool {
        &&& 0 <= t < self.size()
        &&& self.spec_targets()[t] is None
    }

    /// The table is what `decls` and `dup` compile to.
    pub open spec fn compiled_from(&self, decls: Seq<StateDecl>, dup: Duplication) -> bool {
        &&& self.wf()
        &&& self.spec_decls() == decls
        &&& self.spec_strategy() == strategy_for(dup)
        &&& forall|i: int|
            0 <= i < decls.len() ==> (#[trigger] self.finish(i) <==> declared_finish(decls, i))
        &&& forall|i: int, j: int|
            0 <= i < decls.len() && 0 <= j < decls.len() ==> (#[trigger] self.legal(i, j)
                <==> declared_edge(decls, i, j))
    }

    /// The number of declared states.
    pub fn len(&self) -> (r: usize)
        ensures
            r == self.size(),
    {
        self.decls.len()
    }

    /// The commit strategy selected for this state type.
    pub fn strategy(&self) -> (r: CommitStrategy)
        ensures
            r == self.spec_strategy(),
    {
        self.strategy
    }

    /// The declared state with tag `t`.
    pub fn decl(&self, t: usize) -> (r: &StateDecl)
        requires
            t < self.size(),
        ensures
            *r == self.spec_decls()[t as int],
    {
        &self.decls[t]
    }

    /// The tags that the state `t` may change to, or `None` for a finish state.
    pub fn destinations(&self, t: usize) -> (r: Option<&Vec<usize>>)
        requires
            self.wf(),
            t < self.size(),
        ensures
            r is None <==> self.spec_targets()[t as int] is None,
            r matches Some(v) ==> self.spec_targets()[t as int] == Some(*v),
    {
        match &self.targets[t] {
            None => None,
            Some(v) => Some(v),
        }
    }

    /// The tag of the state named `name`, if one is declared.
    pub fn tag_of(&self, name: &str) -> (r: Option<usize>)
        ensures
            r matches Some(t) ==> t < self.size() && name_at(self.spec_decls(), t as int)
                == name@,
            r is None <==> !is_declared(self.spec_decls(), name@),
    {
        let n = String::from_str(name);
        find_state(&self.decls, &n)
    }

    /// The number of finish states among the first `n` states.
    pub open spec fn finish_count(&self, n: int) -> nat
        decreases n,
    {
        if n <= 0 {
            0
        } else {
            self.finish_count(n - 1) + if self.finish(n - 1) {
                1nat
            } else {
                0nat
            }
        }
    }

    /// Whether `current` may change to `candidate`: the candidate's tag is
    /// among the destinations that the current tag declares.
    pub fn can_change<P>(&self, current: &Value<P>, candidate: &Value<P>) -> (r: bool)
        requires
            self.wf(),
        ensures
            r == self.legal(current.tag as int, candidate.tag as int),
    {
        if current.tag >= self.decls.len() {
            return false;
        }
        match &self.targets[current.tag] {
            None => false,
            Some(tv) => {
                let mut k: usize = 0;
                while k < tv.len()
                    invariant
                        k <= tv@.len(),
                        self.wf(),
                        current.tag < self.size(),
                        self.spec_targets()[current.tag as int] == Some(*tv),
                        forall|m: int| 0 <= m < k ==> tv@[m] != candidate.tag,
                    decreases tv@.len() - k,
                {
                    if tv[k] == candidate.tag {
                        assert(self.spec_targets()[current.tag as int].unwrap()@[k as int]
                            == candidate.tag);
                        return true;
                    }
                    k += 1;
                }
                false
            },
        }
    }

    /// Changes `current` to `candidate` when that is legal, and reports whether it did.
    ///
    /// On success the previous tag and payload are replaced by the candidate's;
    /// otherwise `current` is left as it was.
    pub fn change<P>(&self, current: &mut Value<P>, candidate: Value<P>) -> (r: bool)
        requires
            self.wf(),
        ensures
            r == self.legal(old(current).tag as int, candidate.tag as int),
            r ==> *final(current) == candidate,
            !r ==> *final(current) == *old(current),
    {
        if self.can_change(current, &candidate) {
            *current = candidate;
            true
        } else {
            false
        }
    }

    /// Whether `candidate` is at a finish state, judged by its tag alone.
    pub fn is_finish_state<P>(&self, candidate: &Value<P>) -> (r: bool)
        requires
            self.wf(),
        ensures
            r == self.finish(candidate.tag as int),
    {
        candidate.tag < self.decls.len() && self.targets[candidate.tag].is_none()
    }

    /// Whether `current` is at a finish state.
    pub fn at_finish_state<P>(&self, current: &Value<P>) -> (r: bool)
        requires
            self.wf(),
        ensures
            r == self.finish(current.tag as int),
    {
        self.is_finish_state(current)
    }

    /// The number of finish states.
    pub fn finish_states(&self) -> (r: usize)
        requires
            self.wf(),
        ensures
            r == self.finish_count(self.size() as int),
    {
        let mut c: usize = 0;
        let mut i: usize = 0;
        while i < self.targets.len()
            invariant
                self.wf(),
                i <= self.size(),
                c == self.finish_count(i as int),
                c <= i,
            decreases self.size() - i,
        {
            if self.targets[i].is_none() {
                c += 1;
            }
            i += 1;
        }
        c
    }
}

/// The index of the first declared state named `name`.
pub fn find_state(decls: &Vec<StateDecl>, name: &String) -> (r: Option<usize>)
    ensures
        r matches Some(j) ==> j < decls@.len() && name_at(decls@, j as int) == name@,
        r is None <==> !is_declared(decls@, name@),
{
    let mut j: usize = 0;
    while j < decls.len()
        invariant
            j <= decls@.len(),
            forall|m: int| 0 <= m < j ==> name_at(decls@, m) != name@,
        decreases decls@.len() - j,
    {
        if decls[j].name == *name {
            assert(name_at(decls@, j as int) == name@);
            return Some(j);
        }
        j += 1;
    }
    None
}

/// The index of a state whose name an earlier state already has.
pub fn find_duplicate(decls: &Vec<StateDecl>) -> (r: Option<usize>)
    ensures
        r is None <==> names_unique(decls@),
        r matches Some(j) ==> j < decls@.len() && duplicated_name(decls@, name_at(decls@, j as int)),
{
    let n = decls.len();
    let mut j: usize = 0;
    while j < n
        invariant
            n == decls@.len(),
            j <= n,
            forall|a: int, b: int|
                0 <= a < b < j ==> #[trigger] name_at(decls@, a) != #[trigger] name_at(decls@, b),
        decreases n - j,
    {
        let mut i: usize = 0;
        while i < j
            invariant
                n == decls@.len(),
                i <= j < n,
                forall|a: int| 0 <= a < i ==> name_at(decls@, a) != name_at(decls@, j as int),
            decreases j - i,
        {
            if decls[i].name == decls[j].name {
                assert(name_at(decls@, i as int) == name_at(decls@, j as int));
                return Some(j);
            }
            i += 1;
        }
        j += 1;
    }
    assert forall|a: int, b: int|
        0 <= a < n && 0 <= b < n && a != b implies #[trigger] name_at(decls@, a) != #[trigger] name_at(
            decls@,
            b,
        ) by {
        if a > b {
            assert(name_at(decls@, b) != name_at(decls@, a));
        }
    }
    None
}

/// Resolves the destination names `ts` against the declared states.
///
/// Returns the tags in order, or the position of the first name that no
/// state has.
pub fn resolve(decls: &Vec<StateDecl>, ts: &Vec<String>) -> (r: Result<Vec<usize>, usize>)
    ensures
        r matches Ok(tv) ==> tv@.len() == ts@.len() && forall|k: int|
            0 <= k < ts@.len() ==> {
                &&& (#[trigger] tv@[k]) < decls@.len()
                &&& name_at(decls@, tv@[k] as int) == ts@[k]@
            },
        r matches Err(k) ==> k < ts@.len() && !is_declared(decls@, ts@[k as int]@),
        r is Err <==> exists|k: int|
            0 <= k < ts@.len() && !is_declared(decls@, (#[trigger] ts@[k])@),
{
    let mut tv: Vec<usize> = Vec::new();
    let mut k: usize = 0;
    while k < ts.len()
        invariant
            k <= ts@.len(),
            tv@.len() == k,
            forall|m: int|
                0 <= m < k ==> {
                    &&& (#[trigger] tv@[m]) < decls@.len()
                    &&& name_at(decls@, tv@[m] as int) == ts@[m]@
                },
        decreases ts@.len() - k,
    {
        match find_state(decls, &ts[k]) {
            Some(j) => {
                tv.push(j);
            },
            None => {
                return Err(k);
            },
        }
        k += 1;
    }
    assert forall|m: int| 0 <= m < ts@.len() implies is_declared(decls@, (#[trigger] ts@[m])@) by {
        assert(name_at(decls@, tv@[m] as int) == ts@[m]@);
    }
    Ok(tv)
}

/// Checks a specification and compiles it into a transition table.
///
/// The checks run in this order, and the first that fails gives the error:
/// the duplication capability, a non-empty state set, unique names, and
/// declared destination names.
pub fn compile(decls: Vec<StateDecl>, dup: Duplication) -> (r: Result<Table, SpecError>)
    ensures
        dup == Duplication::Unsupported ==> r matches Err(
            SpecError::MissingDuplicationCapability,
        ),
        dup != Duplication::Unsupported && decls@.len() == 0 ==> r matches Err(
            SpecError::EmptyStateSet,
        ),
        dup != Duplication::Unsupported && decls@.len() > 0 && !names_unique(decls@) ==> (
        r matches Err(SpecError::DuplicateStateName(n)) && duplicated_name(decls@, n@)),
        dup != Duplication::Unsupported && decls@.len() > 0 && names_unique(decls@)
            && !targets_known(decls@) ==> (r matches Err(
            SpecError::UnknownTransitionTarget { state, target },
        ) && exists|i: int, k: int|
            unknown_target(decls@, i, k) && name_at(decls@, i) == state@ && (#[trigger] targets_at(
                decls@,
                i,
            )[k])@ == target@),
        dup != Duplication::Unsupported && decls@.len() > 0 && names_unique(decls@)
            && targets_known(decls@) ==> (r matches Ok(t) && t.compiled_from(decls@, dup)),
{
    let strategy = match dup {
        Duplication::Trivial => CommitStrategy::Reuse,
        Duplication::Explicit => CommitStrategy::Duplicate,
        Duplication::Unsupported => {
            return Err(SpecError::MissingDuplicationCapability);
        },
    };
    let n = decls.len();
    if n == 0 {
        return Err(SpecError::EmptyStateSet);
    }
    match find_duplicate(&decls) {
        Some(j) => {
            return Err(SpecError::DuplicateStateName(decls[j].name.clone()));
        },
        None => {},
    }
    let mut targets: Vec<Option<Vec<usize>>> = Vec::new();
    let mut i: usize = 0;
    while i < n
        invariant
            n == decls@.len(),
            i <= n,
            dup != Duplication::Unsupported,
            strategy == strategy_for(dup),
            names_unique(decls@),
            targets@.len() == i,
            forall|m: int| 0 <= m < i ==> resolved_at(decls@, m, #[trigger] targets@[m]),
        decreases n - i,
    {
        match &decls[i].transitions {
            None => {
                targets.push(None);
            },
            Some(ts) => {
                match resolve(&decls, ts) {
                    Ok(tv) => {
                        targets.push(Some(tv));
                    },
                    Err(k) => {
                        assert(unknown_target(decls@, i as int, k as int));
                        assert(!targets_known_at(decls@, i as int));
                        return Err(
                            SpecError::UnknownTransitionTarget {
                                state: decls[i].name.clone(),
                                target: ts[k].clone(),
                            },
                        );
                    },
                }
            },
        }
        assert(resolved_at(decls@, i as int, targets@[i as int]));
        i += 1;
    }
    let t = Table { decls, targets, strategy };
    proof {
        lemma_resolved_known(&t);
        lemma_resolved_edges(&t);
    }
    Ok(t)
}

/// A well-formed table has every destination name declared.
proof fn lemma_resolved_known(t: &Table)
    requires
        t.wf(),
    ensures
        targets_known(t.spec_decls()),
{
    let d = t.spec_decls();
    assert forall|i: int| 0 <= i < d.len() implies #[trigger] targets_known_at(d, i) by {
        let tv = t.spec_targets()[i];
        assert(resolved_at(d, i, tv));
        if d[i].transitions is Some {
            assert forall|k: int| 0 <= k < targets_at(d, i).len() implies is_declared(
                d,
                #[trigger] targets_at(d, i)[k]@,
            ) by {
                assert(name_at(d, tv.unwrap()@[k] as int) == targets_at(d, i)[k]@);
            }
        }
    }
}

/// In a well-formed table, finish states are the undeclared lists and the
/// resolved edges are the declared ones.
proof fn lemma_resolved_edges(t: &Table)
    requires
        t.wf(),
    ensures
        forall|i: int|
            0 <= i < t.size() ==> (#[trigger] t.finish(i) <==> declared_finish(t.spec_decls(), i)),
        forall|i: int, j: int|
            0 <= i < t.size() && 0 <= j < t.size() ==> (#[trigger] t.legal(i, j) <==> declared_edge(
                t.spec_decls(),
                i,
                j,
            )),
{
    let d = t.spec_decls();
    assert forall|i: int| 0 <= i < t.size() implies (#[trigger] t.finish(i) <==> declared_finish(
        d,
        i,
    )) by {
        assert(resolved_at(d, i, t.spec_targets()[i]));
    }
    assert forall|i: int, j: int| 0 <= i < t.size() && 0 <= j < t.size() implies (#[trigger] t.legal(
        i,
        j,
    ) <==> declared_edge(d, i, j)) by {
        let tv = t.spec_targets()[i];
        assert(resolved_at(d, i, tv));
        if t.legal(i, j) {
            let k = choose|k: int| 0 <= k < tv.unwrap()@.len() && (#[trigger] tv.unwrap()@[k]) == j;
            assert(name_at(d, tv.unwrap()@[k] as int) == targets_at(d, i)[k]@);
            assert(targets_at(d, i)[k]@ == name_at(d, j));
        }
        if declared_edge(d, i, j) {
            let k = choose|k: int|
                0 <= k < targets_at(d, i).len() && (#[trigger] targets_at(d, i)[k])@ == name_at(
                    d,
                    j,
                );
            assert(name_at(d, tv.unwrap()@[k] as int) == targets_at(d, i)[k]@);
            assert(tv.unwrap()@[k] as int == j);
        }
    }
}

} // verus!
