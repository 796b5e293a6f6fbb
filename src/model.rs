use vstd::prelude::*;

verus! {

/// The kind of auxiliary data that a state carries.
#[derive(Clone, Debug, PartialEq, Eq)]
pub enum PayloadShape {
    /// No payload.
    Unit,
    /// A positional payload of the given arity.
    Tuple(usize),
    /// A payload of named fields.
    Struct(Vec<String>),
}

/// One declared state: its name, its payload shape, and its transition list.
///
/// `transitions == None` means that the state declares no transitions at all,
/// which makes it a finish state. `Some` of an empty list is a state without
/// any legal outgoing transition that is nevertheless not a finish state.
#[derive(Clone, Debug)]
pub struct StateDecl {
    pub name: String,
    pub shape: PayloadShape,
    pub transitions: Option<Vec<String>>,
}

/// Whether the state type can be duplicated, and how.
#[derive(Clone, Copy, Debug, PartialEq, Eq, Structural)]
pub enum Duplication {
    /// The type is `Copy`: a value can be reused without being consumed.
    Trivial,
    /// The type is `Clone` only: each use takes an explicit duplicate.
    Explicit,
    /// The type supports neither.
    Unsupported,
}

/// How `change` commits a candidate, chosen once per state type.
#[derive(Clone, Copy, Debug, PartialEq, Eq, Structural)]
pub enum CommitStrategy {
    /// Test and commit read the same candidate value.
    Reuse,
    /// Test and commit each take their own duplicate of the candidate.
    Duplicate,
}

/// Why a specification does not compile.
#[derive(Clone, Debug, PartialEq, Eq)]
pub enum SpecError {
    /// The state type supports neither kind of duplication.
    MissingDuplicationCapability,
    /// The specification declares no state.
    EmptyStateSet,
    /// Two states share this name.
    DuplicateStateName(String),
    /// The state `state` names `target` as a destination, and no state has that name.
    UnknownTransitionTarget { state: String, target: String },
}

/// A runtime value of a compiled specification: a state tag and its payload.
///
/// Legality and terminality are decided by `tag` alone; `payload` is carried
/// through unchanged.
#[derive(Clone, Copy, Debug, PartialEq, Eq)]
pub struct Value<P> {
    pub tag: usize,
    pub payload: P,
}

/// The name of the `i`-th declared state.
pub open spec fn name_at(decls: Seq<StateDecl>, i: int) -> Seq<char> {
    decls[i].name@
}

/// The destination names that the `i`-th state declares (only meaningful when it declares some).
pub open spec fn targets_at(decls: Seq<StateDecl>, i: int) -> Seq<String> {
    decls[i].transitions.unwrap()@
}

/// No two declared states share a name.
pub open spec fn names_unique(decls: Seq<StateDecl>) -> bool {
    forall|i: int, j: int|
        0 <= i < decls.len() && 0 <= j < decls.len() && i != j ==> #[trigger] name_at(decls, i)
            != #[trigger] name_at(decls, j)
}

/// Some declared state has the name `n`.
pub open spec fn is_declared(decls: Seq<StateDecl>, n: Seq<char>) -> bool {
    exists|j: int| 0 <= j < decls.len() && #[trigger] name_at(decls, j) == n
}

/// Every destination name of the `i`-th state is declared.
pub open spec fn targets_known_at(decls: Seq<StateDecl>, i: int) -> bool {
    decls[i].transitions is Some ==> forall|k: int|
        0 <= k < targets_at(decls, i).len() ==> is_declared(
            decls,
            #[trigger] targets_at(decls, i)[k]@,
        )
}

/// Every destination name in the specification is declared.
pub open spec fn targets_known(decls: Seq<StateDecl>) -> bool {
    forall|i: int| 0 <= i < decls.len() ==> #[trigger] targets_known_at(decls, i)
}

/// The `i`-th state declares the `j`-th state's name among its destinations.
pub open spec fn declared_edge(decls: Seq<StateDecl>, i: int, j: int) -> bool {
    &&& decls[i].transitions is Some
    &&& exists|k: int|
        0 <= k < targets_at(decls, i).len() && (#[trigger] targets_at(decls, i)[k])@ == name_at(
            decls,
            j,
        )
}

/// The `i`-th state is a finish state: it declares no transition list.
pub open spec fn declared_finish(decls: Seq<StateDecl>, i: int) -> bool {
    decls[i].transitions is None
}

/// The name of the trait that makes a type trivially duplicable.
pub open spec fn copy_name() -> Seq<char> {
    seq!['C', 'o', 'p', 'y']
}

/// The name of the trait that gives a type explicit duplication.
pub open spec fn clone_name() -> Seq<char> {
    seq!['C', 'l', 'o', 'n', 'e']
}

/// `names` holds the name `n`.
pub open spec fn names_hold(names: Seq<String>, n: Seq<char>) -> bool {
    exists|i: int| 0 <= i < names.len() && (#[trigger] names[i])@ == n
}

/// The duplication capability of a type that derives the traits `names`.
pub open spec fn duplication_of(names: Seq<String>) -> Duplication {
    if names_hold(names, copy_name()) {
        Duplication::Trivial
    } else if names_hold(names, clone_name()) {
        Duplication::Explicit
    } else {
        Duplication::Unsupported
    }
}

/// Whether `names` holds a string equal to `n`.
fn holds_name(names: &Vec<String>, n: &String) -> (r: bool)
    ensures
        r == names_hold(names@, n@),
{
    let mut i: usize = 0;
    while i < names.len()
        invariant
            i <= names@.len(),
            forall|m: int| 0 <= m < i ==> (#[trigger] names@[m])@ != n@,
        decreases names@.len() - i,
    {
        if names[i] == *n {
            assert((names@[i as int])@ == n@);
            return true;
        }
        i += 1;
    }
    false
}

/// Picks the duplication capability from the names of the traits that a
/// state type derives: `Copy` wins over `Clone`, and a type with neither
/// supports no duplication.
pub fn duplication_from_derives(names: &Vec<String>) -> (r: Duplication)
    ensures
        r == duplication_of(names@),
{
    let copy = String::from_str("Copy");
    let clone = String::from_str("Clone");
    proof {
        reveal_strlit("Copy");
        reveal_strlit("Clone");
        assert(copy@ =~= copy_name());
        assert(clone@ =~= clone_name());
    }
    if holds_name(names, &copy) {
        Duplication::Trivial
    } else if holds_name(names, &clone) {
        Duplication::Explicit
    } else {
        Duplication::Unsupported
    }
}

} // verus!
