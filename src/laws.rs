use vstd::prelude::*;
use crate::compile::Table;
use crate::model::{declared_edge, declared_finish, name_at, targets_at, Duplication, StateDecl, Value};

verus! {

/// A value is at a finish state exactly when its state declares no
/// transition list, whatever its payload.
pub proof fn law_finish_iff_undeclared<P>(
    t: &Table,
    decls: Seq<StateDecl>,
    dup: Duplication,
    v: Value<P>,
)
    requires
        t.compiled_from(decls, dup),
        v.tag < decls.len(),
    ensures
        t.finish(v.tag as int) <==> decls[v.tag as int].transitions is None,
{
    assert(t.finish(v.tag as int) <==> declared_finish(decls, v.tag as int));
}

/// From a state with a declared transition list, a candidate is legal exactly
/// when its state's name is in that list.
pub proof fn law_legal_iff_listed<P>(
    t: &Table,
    decls: Seq<StateDecl>,
    dup: Duplication,
    current: Value<P>,
    candidate: Value<P>,
)
    requires
        t.compiled_from(decls, dup),
        current.tag < decls.len(),
        candidate.tag < decls.len(),
        decls[current.tag as int].transitions is Some,
    ensures
        t.legal(current.tag as int, candidate.tag as int) <==> exists|k: int|
            0 <= k < targets_at(decls, current.tag as int).len() && (#[trigger] targets_at(
                decls,
                current.tag as int,
            )[k])@ == name_at(decls, candidate.tag as int),
{
    assert(t.legal(current.tag as int, candidate.tag as int) <==> declared_edge(
        decls,
        current.tag as int,
        candidate.tag as int,
    ));
}

/// From a finish state no candidate is legal.
pub proof fn law_finish_has_no_exit<P>(
    t: &Table,
    decls: Seq<StateDecl>,
    dup: Duplication,
    current: Value<P>,
    candidate: Value<P>,
)
    requires
        t.compiled_from(decls, dup),
        current.tag < decls.len(),
        decls[current.tag as int].transitions is None,
    ensures
        !t.legal(current.tag as int, candidate.tag as int),
{
    assert(t.finish(current.tag as int));
}

/// Legality does not depend on the candidate's payload: two candidates with
/// the same tag are judged alike.
pub proof fn law_legal_ignores_payload<P>(t: &Table, current: Value<P>, a: Value<P>, b: Value<P>)
    requires
        a.tag == b.tag,
    ensures
        t.legal(current.tag as int, a.tag as int) == t.legal(current.tag as int, b.tag as int),
{
}

/// Terminality does not depend on the payload: two values with the same tag
/// are judged alike.
pub proof fn law_finish_ignores_payload<P>(t: &Table, a: Value<P>, b: Value<P>)
    requires
        a.tag == b.tag,
    ensures
        t.finish(a.tag as int) == t.finish(b.tag as int),
{
}

} // verus!
