//! Operation emission: the source text of the generated wrapper type and
//! its full operation surface.
//!
//! The emitted surface is fixed and identical for every ownership shape —
//! the shape only changes how the cell is stored and constructed, never the
//! operation contracts.  Three families of read-modify-write operators
//! (intersection, union, subtraction), each in an operator and an assigning
//! form, are emitted for three receiver shapes (by value, by shared
//! reference, by exclusive reference), together with equality against the
//! plain flag type, one-way conversion to it, and textual rendering that
//! delegates to the flag type's own debug rendering.
//!
//! Every emission function returns text equal, character for character, to
//! a specification-level template, so the whole generated artifact is
//! pinned down by the contract of [`atomflag_derive`].

use crate::config::{resolve_ownership, resolve_spec, ConfigMeta, GenError, Ownership};
use crate::wrapper::{storage_for, synthesize, wrapper_name, Storage, WrapperSpec};
use vstd::prelude::*;
use vstd::string::StringExecFns;

verus! {

/// One of the three emitted operator families.
#[derive(Clone, Copy, PartialEq, Eq, Structural, Debug)]
pub enum OpFamily {
    /// Intersection: the cell is ANDed with the operand's bits.
    And,
    /// Union: the cell is ORed with the operand's bits.
    Or,
    /// Subtraction: the cell is ANDed with the complement of the operand's
    /// bits, clearing exactly the operand's bits.
    Subtract,
}

/// The receiver shape an operator instance is emitted for.  All three
/// shapes route through the same atomic primitives with identical
/// semantics.
#[derive(Clone, Copy, PartialEq, Eq, Structural, Debug)]
pub enum Receiver {
    /// The wrapper taken by value.
    Value,
    /// The wrapper taken by shared reference.
    ByRef,
    /// The wrapper taken by exclusive reference.
    ByMut,
}

/// The text prefixed to the wrapper's name in an impl for this receiver.
pub open spec fn receiver_prefix(recv: Receiver) -> Seq<char> {
    match recv {
        Receiver::Value => ""@,
        Receiver::ByRef => "&"@,
        Receiver::ByMut => "&mut "@,
    }
}

/// The operator trait emitted for this family.
pub open spec fn op_trait(op: OpFamily) -> Seq<char> {
    match op {
        OpFamily::And => "BitAnd"@,
        OpFamily::Or => "BitOr"@,
        OpFamily::Subtract => "Sub"@,
    }
}

/// The assigning operator trait emitted for this family.
pub open spec fn op_assign_trait(op: OpFamily) -> Seq<char> {
    match op {
        OpFamily::And => "BitAndAssign"@,
        OpFamily::Or => "BitOrAssign"@,
        OpFamily::Subtract => "SubAssign"@,
    }
}

/// The operator trait's method name.
pub open spec fn op_method(op: OpFamily) -> Seq<char> {
    match op {
        OpFamily::And => "bitand"@,
        OpFamily::Or => "bitor"@,
        OpFamily::Subtract => "sub"@,
    }
}

/// The assigning operator trait's method name.
pub open spec fn op_assign_method(op: OpFamily) -> Seq<char> {
    match op {
        OpFamily::And => "bitand_assign"@,
        OpFamily::Or => "bitor_assign"@,
        OpFamily::Subtract => "sub_assign"@,
    }
}

/// The atomic read-modify-write call each family routes through: fetch-and
/// for intersection, fetch-or for union, and fetch-and with the operand's
/// complement for subtraction — always with relaxed ordering.
pub open spec fn op_fetch_call(op: OpFamily) -> Seq<char> {
    match op {
        OpFamily::And => "fetch_and(rhs.bits(), std::sync::atomic::Ordering::Relaxed)"@,
        OpFamily::Or => "fetch_or(rhs.bits(), std::sync::atomic::Ordering::Relaxed)"@,
        OpFamily::Subtract => "fetch_and(!rhs.bits(), std::sync::atomic::Ordering::Relaxed)"@,
    }
}

pub fn receiver_prefix_str(recv: Receiver) -> (r: &'static str)
    ensures
        r@ == receiver_prefix(recv),
{
    match recv {
        Receiver::Value => "",
        Receiver::ByRef => "&",
        Receiver::ByMut => "&mut ",
    }
}

pub fn op_trait_str(op: OpFamily) -> (r: &'static str)
    ensures
        r@ == op_trait(op),
{
    match op {
        OpFamily::And => "BitAnd",
        OpFamily::Or => "BitOr",
        OpFamily::Subtract => "Sub",
    }
}

pub fn op_assign_trait_str(op: OpFamily) -> (r: &'static str)
    ensures
        r@ == op_assign_trait(op),
{
    match op {
        OpFamily::And => "BitAndAssign",
        OpFamily::Or => "BitOrAssign",
        OpFamily::Subtract => "SubAssign",
    }
}

pub fn op_method_str(op: OpFamily) -> (r: &'static str)
    ensures
        r@ == op_method(op),
{
    match op {
        OpFamily::And => "bitand",
        OpFamily::Or => "bitor",
        OpFamily::Subtract => "sub",
    }
}

pub fn op_assign_method_str(op: OpFamily) -> (r: &'static str)
    ensures
        r@ == op_assign_method(op),
{
    match op {
        OpFamily::And => "bitand_assign",
        OpFamily::Or => "bitor_assign",
        OpFamily::Subtract => "sub_assign",
    }
}

pub fn op_fetch_call_str(op: OpFamily) -> (r: &'static str)
    ensures
        r@ == op_fetch_call(op),
{
    match op {
        OpFamily::And => "fetch_and(rhs.bits(), std::sync::atomic::Ordering::Relaxed)",
        OpFamily::Or => "fetch_or(rhs.bits(), std::sync::atomic::Ordering::Relaxed)",
        OpFamily::Subtract => "fetch_and(!rhs.bits(), std::sync::atomic::Ordering::Relaxed)",
    }
}

/// The operator impl of one family for one receiver shape.  The operator
/// returns the flag value decoded from the bits read by the atomic
/// read-modify-write — the state immediately prior to the mutation.
pub open spec fn binop_impl_text(
    name: Seq<char>,
    wrapper: Seq<char>,
    op: OpFamily,
    recv: Receiver,
) -> Seq<char> {
    "impl std::ops::"@ + op_trait(op) + "<"@ + name + "> for "@ + receiver_prefix(recv) + wrapper
        + " {\n    type Output = "@ + name + ";\n\n    fn "@ + op_method(op) + "(self, rhs: "@
        + name + ") -> Self::Output {\n        let bits = self.0."@ + op_fetch_call(op)
        + ";\n        "@ + name + "::from_bits_retain(bits)\n    }\n}\n\n"@
}

/// The assigning operator impl of one family for one receiver shape; the
/// prior state is discarded.
pub open spec fn assign_impl_text(
    name: Seq<char>,
    wrapper: Seq<char>,
    op: OpFamily,
    recv: Receiver,
) -> Seq<char> {
    "impl std::ops::"@ + op_assign_trait(op) + "<"@ + name + "> for "@ + receiver_prefix(recv)
        + wrapper + " {\n    fn "@ + op_assign_method(op) + "(&mut self, rhs: "@ + name
        + ") {\n        self.0."@ + op_fetch_call(op) + ";\n    }\n}\n\n"@
}

/// Equality against the plain flag type: a point-in-time comparison of the
/// currently decoded value.
pub open spec fn eq_impl_text(name: Seq<char>, wrapper: Seq<char>, recv: Receiver) -> Seq<char> {
    "impl PartialEq<"@ + name + "> for "@ + receiver_prefix(recv) + wrapper
        + " {\n    fn eq(&self, other: &"@ + name
        + ") -> bool {\n        self.get() == *other\n    }\n}\n\n"@
}

/// One-way conversion into the plain flag type through the decoded value.
pub open spec fn from_impl_text(name: Seq<char>, wrapper: Seq<char>, recv: Receiver) -> Seq<char> {
    "impl From<"@ + receiver_prefix(recv) + wrapper + "> for "@ + name
        + " {\n    fn from(value: "@ + receiver_prefix(recv) + wrapper
        + ") -> Self {\n        value.get()\n    }\n}\n\n"@
}

/// The whole operator surface for one receiver shape: the three operator
/// families in operator and assigning form, then equality and conversion.
pub open spec fn operator_impls_text(
    name: Seq<char>,
    wrapper: Seq<char>,
    recv: Receiver,
) -> Seq<char> {
    binop_impl_text(name, wrapper, OpFamily::And, recv) + assign_impl_text(
        name,
        wrapper,
        OpFamily::And,
        recv,
    ) + binop_impl_text(name, wrapper, OpFamily::Or, recv) + assign_impl_text(
        name,
        wrapper,
        OpFamily::Or,
        recv,
    ) + binop_impl_text(name, wrapper, OpFamily::Subtract, recv) + assign_impl_text(
        name,
        wrapper,
        OpFamily::Subtract,
        recv,
    ) + eq_impl_text(name, wrapper, recv) + from_impl_text(name, wrapper, recv)
}

pub fn emit_binop_impl(name: &String, wrapper: &String, op: OpFamily, recv: Receiver) -> (r:
    String)
    ensures
        r@ == binop_impl_text(name@, wrapper@, op, recv),
{
    let mut r = String::from_str("impl std::ops::");
    r.append(op_trait_str(op));
    r.append("<");
    r.append(name.as_str());
    r.append("> for ");
    r.append(receiver_prefix_str(recv));
    r.append(wrapper.as_str());
    r.append(" {\n    type Output = ");
    r.append(name.as_str());
    r.append(";\n\n    fn ");
    r.append(op_method_str(op));
    r.append("(self, rhs: ");
    r.append(name.as_str());
    r.append(") -> Self::Output {\n        let bits = self.0.");
    r.append(op_fetch_call_str(op));
    r.append(";\n        ");
    r.append(name.as_str());
    r.append("::from_bits_retain(bits)\n    }\n}\n\n");
    r
}

pub fn emit_assign_impl(name: &String, wrapper: &String, op: OpFamily, recv: Receiver) -> (r:
    String)
    ensures
        r@ == assign_impl_text(name@, wrapper@, op, recv),
{
    let mut r = String::from_str("impl std::ops::");
    r.append(op_assign_trait_str(op));
    r.append("<");
    r.append(name.as_str());
    r.append("> for ");
    r.append(receiver_prefix_str(recv));
    r.append(wrapper.as_str());
    r.append(" {\n    fn ");
    r.append(op_assign_method_str(op));
    r.append("(&mut self, rhs: ");
    r.append(name.as_str());
    r.append(") {\n        self.0.");
    r.append(op_fetch_call_str(op));
    r.append(";\n    }\n}\n\n");
    r
}

pub fn emit_eq_impl(name: &String, wrapper: &String, recv: Receiver) -> (r: String)
    ensures
        r@ == eq_impl_text(name@, wrapper@, recv),
{
    let mut r = String::from_str("impl PartialEq<");
    r.append(name.as_str());
    r.append("> for ");
    r.append(receiver_prefix_str(recv));
    r.append(wrapper.as_str());
    r.append(" {\n    fn eq(&self, other: &");
    r.append(name.as_str());
    r.append(") -> bool {\n        self.get() == *other\n    }\n}\n\n");
    r
}

pub fn emit_from_impl(name: &String, wrapper: &String, recv: Receiver) -> (r: String)
    ensures
        r@ == from_impl_text(name@, wrapper@, recv),
{
    let mut r = String::from_str("impl From<");
    r.append(receiver_prefix_str(recv));
    r.append(wrapper.as_str());
    r.append("> for ");
    r.append(name.as_str());
    r.append(" {\n    fn from(value: ");
    r.append(receiver_prefix_str(recv));
    r.append(wrapper.as_str());
    r.append(") -> Self {\n        value.get()\n    }\n}\n\n");
    r
}

/// The atomic cell type backing the flag type's raw integer, as the
/// pre-existing atomic-integer abstraction names it.
pub open spec fn inner_atomic_text(name: Seq<char>) -> Seq<char> {
    "<<"@ + name + " as ::bitflags::Flags>::Bits as ::atomint::AtomicInt>::Atomic"@
}

/// The wrapper's storage field type: the bare cell, or the cell behind one
/// of the two reference-counted containers.
pub open spec fn storage_text(st: Storage, name: Seq<char>) -> Seq<char> {
    match st {
        Storage::Bare => inner_atomic_text(name),
        Storage::InArc => "std::sync::Arc<"@ + inner_atomic_text(name) + ">"@,
        Storage::InRc => "std::rc::Rc<"@ + inner_atomic_text(name) + ">"@,
    }
}

/// The derive list of the wrapper: a default value always; cheap handle
/// duplication only for the shared shapes.
pub open spec fn derive_list_text(derive_clone: bool) -> Seq<char> {
    if derive_clone {
        "#[derive(Clone, Default)]\n"@
    } else {
        "#[derive(Default)]\n"@
    }
}

/// The constructor: a pure value construction usable in constant contexts
/// for the bare shape, an allocating construction for the shared shapes.
pub open spec fn new_impl_text(st: Storage, name: Seq<char>) -> Seq<char> {
    match st {
        Storage::Bare => "    pub const"@ + " fn new(value: <"@ + name
            + " as ::bitflags::Flags>::Bits) -> Self {\n        Self(<"@ + inner_atomic_text(name)
            + ">::new(value))\n    }\n\n"@,
        Storage::InArc => "    pub fn new(value: <"@ + name
            + " as ::bitflags::Flags>::Bits) -> Self {\n        Self(std::sync::Arc::new(<"@
            + inner_atomic_text(name) + ">::new(value)))\n    }\n\n"@,
        Storage::InRc => "    pub fn new(value: <"@ + name
            + " as ::bitflags::Flags>::Bits) -> Self {\n        Self(std::rc::Rc::new(<"@
            + inner_atomic_text(name) + ">::new(value)))\n    }\n\n"@,
    }
}

/// The read-only accessors and the unconditional clear, identical for
/// every ownership shape: a relaxed atomic load of the raw bits, the
/// validation-free decode, the two predicates derived from it, and a
/// relaxed store of zero.
pub open spec fn accessors_text(name: Seq<char>) -> Seq<char> {
    "    pub fn bits(&self) -> <"@ + name
        + " as ::bitflags::Flags>::Bits {\n        self.0.load(std::sync::atomic::Ordering::Relaxed)\n    }\n\n    pub fn get(&self) -> "@
        + name + " {\n        "@ + name
        + "::from_bits_retain(self.bits())\n    }\n\n    pub fn is_empty(&self) -> bool {\n        self.get().is_empty()\n    }\n\n    pub fn contains(&self, other: "@
        + name
        + ") -> bool {\n        self.get().contains(other)\n    }\n\n    pub fn clear(&self) {\n        self.0.store(0, std::sync::atomic::Ordering::Relaxed);\n    }\n"@
}

/// The wrapper type's declaration and inherent impl.
pub open spec fn wrapper_decl_text(
    st: Storage,
    derive_clone: bool,
    name: Seq<char>,
    wrapper: Seq<char>,
) -> Seq<char> {
    derive_list_text(derive_clone) + "pub struct "@ + wrapper + "("@ + storage_text(st, name)
        + ");\n\nimpl "@ + wrapper + " {\n"@ + new_impl_text(st, name) + accessors_text(name)
        + "}\n\n"@
}

/// The human-readable and debug renderings: both decode to the plain flag
/// value and delegate to its own debug rendering.
pub open spec fn display_impls_text(wrapper: Seq<char>) -> Seq<char> {
    "impl std::fmt::Display for "@ + wrapper
        + " {\n    fn fmt(&self, f: &mut std::fmt::Formatter<'_>) -> std::fmt::Result {\n        std::fmt::Debug::fmt(&self.get(), f)\n    }\n}\n\nimpl std::fmt::Debug for "@
        + wrapper
        + " {\n    fn fmt(&self, f: &mut std::fmt::Formatter<'_>) -> std::fmt::Result {\n        std::fmt::Display::fmt(self, f)\n    }\n}\n\n"@
}

pub fn emit_inner_atomic(name: &String) -> (r: String)
    ensures
        r@ == inner_atomic_text(name@),
{
    let mut r = String::from_str("<<");
    r.append(name.as_str());
    r.append(" as ::bitflags::Flags>::Bits as ::atomint::AtomicInt>::Atomic");
    r
}

pub fn emit_storage(st: Storage, name: &String) -> (r: String)
    ensures
        r@ == storage_text(st, name@),
{
    match st {
        Storage::Bare => emit_inner_atomic(name),
        Storage::InArc => {
            let mut r = String::from_str("std::sync::Arc<");
            let inner = emit_inner_atomic(name);
            r.append(inner.as_str());
            r.append(">");
            r
        },
        Storage::InRc => {
            let mut r = String::from_str("std::rc::Rc<");
            let inner = emit_inner_atomic(name);
            r.append(inner.as_str());
            r.append(">");
            r
        },
    }
}

pub fn emit_new_impl(st: Storage, name: &String) -> (r: String)
    ensures
        r@ == new_impl_text(st, name@),
{
    match st {
        Storage::Bare => {
            let mut r = String::from_str("    pub const");
            r.append(" fn new(value: <");
            r.append(name.as_str());
            r.append(" as ::bitflags::Flags>::Bits) -> Self {\n        Self(<");
            let inner = emit_inner_atomic(name);
            r.append(inner.as_str());
            r.append(">::new(value))\n    }\n\n");
            r
        },
        Storage::InArc => {
            let mut r = String::from_str("    pub fn new(value: <");
            r.append(name.as_str());
            r.append(" as ::bitflags::Flags>::Bits) -> Self {\n        Self(std::sync::Arc::new(<");
            let inner = emit_inner_atomic(name);
            r.append(inner.as_str());
            r.append(">::new(value)))\n    }\n\n");
            r
        },
        Storage::InRc => {
            let mut r = String::from_str("    pub fn new(value: <");
            r.append(name.as_str());
            r.append(" as ::bitflags::Flags>::Bits) -> Self {\n        Self(std::rc::Rc::new(<");
            let inner = emit_inner_atomic(name);
            r.append(inner.as_str());
            r.append(">::new(value)))\n    }\n\n");
            r
        },
    }
}

pub fn emit_accessors(name: &String) -> (r: String)
    ensures
        r@ == accessors_text(name@),
{
    let mut r = String::from_str("    pub fn bits(&self) -> <");
    r.append(name.as_str());
    r.append(
        " as ::bitflags::Flags>::Bits {\n        self.0.load(std::sync::atomic::Ordering::Relaxed)\n    }\n\n    pub fn get(&self) -> ",
    );
    r.append(name.as_str());
    r.append(" {\n        ");
    r.append(name.as_str());
    r.append(
        "::from_bits_retain(self.bits())\n    }\n\n    pub fn is_empty(&self) -> bool {\n        self.get().is_empty()\n    }\n\n    pub fn contains(&self, other: ",
    );
    r.append(name.as_str());
    r.append(
        ") -> bool {\n        self.get().contains(other)\n    }\n\n    pub fn clear(&self) {\n        self.0.store(0, std::sync::atomic::Ordering::Relaxed);\n    }\n",
    );
    r
}

/// Emit the wrapper type's declaration and inherent impl from its
/// synthesized description.
pub fn emit_wrapper_decl(w: &WrapperSpec, name: &String) -> (r: String)
    ensures
        r@ == wrapper_decl_text(w.storage, w.derive_clone, name@, w.name@),
{
    let mut r = if w.derive_clone {
        String::from_str("#[derive(Clone, Default)]\n")
    } else {
        String::from_str("#[derive(Default)]\n")
    };
    r.append("pub struct ");
    r.append(w.name.as_str());
    r.append("(");
    let st = emit_storage(w.storage, name);
    r.append(st.as_str());
    r.append(");\n\nimpl ");
    r.append(w.name.as_str());
    r.append(" {\n");
    let ni = emit_new_impl(w.storage, name);
    r.append(ni.as_str());
    let acc = emit_accessors(name);
    r.append(acc.as_str());
    r.append("}\n\n");
    r
}

/// Emit the two rendering impls of the wrapper.
pub fn emit_display_impls(wrapper: &String) -> (r: String)
    ensures
        r@ == display_impls_text(wrapper@),
{
    let mut r = String::from_str("impl std::fmt::Display for ");
    r.append(wrapper.as_str());
    r.append(
        " {\n    fn fmt(&self, f: &mut std::fmt::Formatter<'_>) -> std::fmt::Result {\n        std::fmt::Debug::fmt(&self.get(), f)\n    }\n}\n\nimpl std::fmt::Debug for ",
    );
    r.append(wrapper.as_str());
    r.append(
        " {\n    fn fmt(&self, f: &mut std::fmt::Formatter<'_>) -> std::fmt::Result {\n        std::fmt::Display::fmt(self, f)\n    }\n}\n\n",
    );
    r
}

/// Emit the operator surface of the wrapper for one receiver shape.
pub fn operator_impls(name: &String, wrapper: &String, recv: Receiver) -> (r: String)
    ensures
        r@ == operator_impls_text(name@, wrapper@, recv),
{
    let mut r = emit_binop_impl(name, wrapper, OpFamily::And, recv);
    let part = emit_assign_impl(name, wrapper, OpFamily::And, recv);
    r.append(part.as_str());
    let part = emit_binop_impl(name, wrapper, OpFamily::Or, recv);
    r.append(part.as_str());
    let part = emit_assign_impl(name, wrapper, OpFamily::Or, recv);
    r.append(part.as_str());
    let part = emit_binop_impl(name, wrapper, OpFamily::Subtract, recv);
    r.append(part.as_str());
    let part = emit_assign_impl(name, wrapper, OpFamily::Subtract, recv);
    r.append(part.as_str());
    let part = emit_eq_impl(name, wrapper, recv);
    r.append(part.as_str());
    let part = emit_from_impl(name, wrapper, recv);
    r.append(part.as_str());
    r
}

/// One caller-declared bit-flag type, as the generator sees it: its name
/// and the configuration entries attached to its declaration.  The flag
/// type itself is owned by the pre-existing bit-flag abstraction; the
/// generator only names it.
pub struct FlagSetDescriptor {
    /// The flag type's name.
    pub name: String,
    /// The configuration entries attached to the declaration.
    pub config: Vec<ConfigMeta>,
}

/// The complete generated artifact for one declaration under a resolved
/// ownership shape: the wrapper declaration, the rendering impls, and the
/// operator surface for all three receiver shapes.
pub open spec fn derive_output_text(name: Seq<char>, o: Ownership) -> Seq<char> {
    wrapper_decl_text(storage_for(o), o != Ownership::Unwrapped, name, wrapper_name(name))
        + display_impls_text(wrapper_name(name)) + operator_impls_text(
        name,
        wrapper_name(name),
        Receiver::Value,
    ) + operator_impls_text(name, wrapper_name(name), Receiver::ByRef) + operator_impls_text(
        name,
        wrapper_name(name),
        Receiver::ByMut,
    )
}

/// Process one flag-set declaration: resolve its configuration, synthesize
/// the wrapper type, and emit the wrapper with its whole operation surface.
///
/// Exactly the configuration errors of resolution halt generation, and
/// then no partial artifact is emitted; otherwise the returned text is the
/// complete artifact for the resolved ownership shape.
pub fn atomflag_derive(input: &FlagSetDescriptor) -> (r: Result<String, GenError>)
    ensures
        (match resolve_spec(input.config@) {
            Ok(o) => r matches Ok(text) && text@ == derive_output_text(input.name@, o),
            Err(e) => r == Err::<String, GenError>(e),
        }),
{
    let ownership = match resolve_ownership(&input.config) {
        Ok(o) => o,
        Err(e) => { return Err(e) },
    };
    let w = synthesize(&input.name, ownership);
    let mut out = emit_wrapper_decl(&w, &input.name);
    let part = emit_display_impls(&w.name);
    out.append(part.as_str());
    let part = operator_impls(&input.name, &w.name, Receiver::Value);
    out.append(part.as_str());
    let part = operator_impls(&input.name, &w.name, Receiver::ByRef);
    out.append(part.as_str());
    let part = operator_impls(&input.name, &w.name, Receiver::ByMut);
    out.append(part.as_str());
    Ok(out)
}

} // verus!
