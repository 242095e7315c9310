//! Wrapper type synthesis: from a flag type's name and its resolved
//! ownership shape to the description of the generated wrapper type.
//!
//! The wrapper's name is a fixed convention — `Atomic` prefixed to the flag
//! type's name, verbatim, with no collision detection.  The ownership shape
//! alone decides the storage (a bare atomic cell, or the cell behind one of
//! two reference-counted containers), whether the wrapper derives a cheap
//! duplication capability, and whether its constructor is usable in
//! constant contexts.  Every wrapper derives a default value (all bits
//! clear), independent of `new`.

use crate::config::Ownership;
use vstd::prelude::*;
use vstd::string::StringExecFns;

verus! {

/// How the generated wrapper stores its atomic cell.
#[derive(Clone, Copy, PartialEq, Eq, Structural, Debug)]
pub enum Storage {
    /// The atomic cell is a direct field.
    Bare,
    /// The cell sits behind a thread-safe reference-counted container.
    InArc,
    /// The cell sits behind a single-thread reference-counted container.
    InRc,
}

/// The synthesized description of one generated wrapper type.  Computed
/// once per declaration and consumed by the operation emitter; never
/// mutated.
pub struct WrapperSpec {
    /// The generated type's name: `Atomic` + the flag type's name.
    pub name: String,
    /// How the atomic cell is stored.
    pub storage: Storage,
    /// Whether the wrapper derives cheap duplication of a handle sharing
    /// the same cell.  True exactly for the two shared shapes.
    pub derive_clone: bool,
    /// Whether a default (all-bits-clear) value is derivable.  Always true.
    pub derive_default: bool,
    /// Whether `new` is usable in constant contexts.  True exactly for the
    /// unwrapped shape, whose constructor allocates nothing.
    pub const_new: bool,
}

/// The storage that each ownership shape selects.
pub open spec fn storage_for(o: Ownership) -> Storage {
    match o {
        Ownership::Unwrapped => Storage::Bare,
        Ownership::SharedMultiThread => Storage::InArc,
        Ownership::SharedSingleThread => Storage::InRc,
    }
}

/// The generated wrapper's name for a flag type of the given name.
pub open spec fn wrapper_name(name: Seq<char>) -> Seq<char> {
    "Atomic"@ + name
}

/// Synthesize the wrapper description for one flag declaration.  Only the
/// three known ownership shapes have synthesis logic; the resolver admits
/// no others.
pub fn synthesize(flag_name: &String, ownership: Ownership) -> (r: WrapperSpec)
    ensures
        r.name@ == wrapper_name(flag_name@),
        r.storage == storage_for(ownership),
        r.derive_clone == (ownership != Ownership::Unwrapped),
        r.derive_default,
        r.const_new == (ownership == Ownership::Unwrapped),
{
    let mut name = String::from_str("Atomic");
    name.append(flag_name.as_str());
    let storage = match ownership {
        Ownership::Unwrapped => Storage::Bare,
        Ownership::SharedMultiThread => Storage::InArc,
        Ownership::SharedSingleThread => Storage::InRc,
    };
    let derive_clone = match ownership {
        Ownership::Unwrapped => false,
        Ownership::SharedMultiThread => true,
        Ownership::SharedSingleThread => true,
    };
    let const_new = match ownership {
        Ownership::Unwrapped => true,
        Ownership::SharedMultiThread => false,
        Ownership::SharedSingleThread => false,
    };
    WrapperSpec { name, storage, derive_clone, derive_default: true, const_new }
}

} // verus!
