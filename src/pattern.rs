use vstd::prelude::*;
use crate::model::{PayloadShape, StateDecl};

verus! {

/// The path separator between a type and one of its variants.
pub open spec fn path_sep() -> Seq<char> {
    seq![':', ':']
}

/// What follows a variant's name in a pattern that ignores its payload.
pub open spec fn shape_suffix(shape: PayloadShape) -> Seq<char> {
    match shape {
        PayloadShape::Unit => Seq::empty(),
        PayloadShape::Tuple(_) => seq!['(', '.', '.', ')'],
        PayloadShape::Struct(_) => seq!['{', '.', '.', '}'],
    }
}

/// The pattern text that matches every value of the state `decl` of the type
/// `owner`, whatever its payload.
pub open spec fn pattern_text(owner: Seq<char>, decl: StateDecl) -> Seq<char> {
    owner + path_sep() + decl.name@ + shape_suffix(decl.shape)
}

/// Builds the pattern that recognises the state `decl` of the type
/// `owner` by its tag: `T::V` for a state without payload, `T::V(..)`
/// for a positional payload, `T::V{..}` for named fields.
pub fn pattern(owner: &str, decl: &StateDecl) -> (r: String)
    ensures
        r@ == pattern_text(owner@, *decl),
{
    proof {
        reveal_strlit("::");
        reveal_strlit("(..)");
        reveal_strlit("{..}");
    }
    let mut s = String::from_str(owner);
    s.append("::");
    s.append(decl.name.as_str());
    match &decl.shape {
        PayloadShape::Unit => {},
        PayloadShape::Tuple(_) => {
            s.append("(..)");
        },
        PayloadShape::Struct(_) => {
            s.append("{..}");
        },
    }
    assert(s@ =~= pattern_text(owner@, *decl));
    s
}

} // verus!
