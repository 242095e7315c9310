//! Tests of the generator pipeline: configuration resolution, wrapper
//! synthesis, and the emitted source text.

use atomflag::config::{resolve_ownership, ConfigMeta, ConfigValue, GenError, Ownership};
use atomflag::emit::{
    atomflag_derive, emit_eq_impl, emit_new_impl, operator_impls, FlagSetDescriptor, Receiver,
};
use atomflag::wrapper::{synthesize, Storage};

fn named(key: &str, value: ConfigValue) -> ConfigMeta {
    ConfigMeta::NameValue { key: key.to_string(), value }
}

fn strlit(key: &str, value: &str) -> ConfigMeta {
    named(key, ConfigValue::StrLit(value.to_string()))
}

#[test]
fn absent_config_is_unwrapped() {
    let entries: Vec<ConfigMeta> = Vec::new();
    assert_eq!(resolve_ownership(&entries), Ok(Ownership::Unwrapped));
}

#[test]
fn arc_selects_shared_multi_thread() {
    let entries = vec![strlit("wrapper", "Arc")];
    assert_eq!(resolve_ownership(&entries), Ok(Ownership::SharedMultiThread));
}

#[test]
fn rc_selects_shared_single_thread() {
    let entries = vec![strlit("wrapper", "Rc")];
    assert_eq!(resolve_ownership(&entries), Ok(Ownership::SharedSingleThread));
}

#[test]
fn unknown_token_is_terminal() {
    let entries = vec![strlit("wrapper", "Foo")];
    let r = resolve_ownership(&entries);
    assert_eq!(r, Err(GenError::UnsupportedOwnership));
    assert_eq!(r.unwrap_err().message(), "Only 'Arc' and 'Rc' are supported.");
}

#[test]
fn empty_token_is_terminal() {
    let entries = vec![strlit("wrapper", "")];
    assert_eq!(resolve_ownership(&entries), Err(GenError::UnsupportedOwnership));
}

#[test]
fn non_string_literal_is_terminal() {
    let entries = vec![named("wrapper", ConfigValue::NonStrLit)];
    let r = resolve_ownership(&entries);
    assert_eq!(r, Err(GenError::ExpectedStringLiteral));
    assert_eq!(r.unwrap_err().message(), "Expected string literal.");
}

#[test]
fn non_literal_expression_is_terminal() {
    let entries = vec![named("wrapper", ConfigValue::NonLiteral)];
    let r = resolve_ownership(&entries);
    assert_eq!(r, Err(GenError::ExpectedLiteralExpression));
    assert_eq!(r.unwrap_err().message(), "Expected literal expression.");
}

#[test]
fn unrelated_entries_resolve_to_default() {
    let entries = vec![
        ConfigMeta::Marker,
        strlit("color", "Arc"),
        named("size", ConfigValue::NonStrLit),
    ];
    assert_eq!(resolve_ownership(&entries), Ok(Ownership::Unwrapped));
}

#[test]
fn synthesis_prefixes_the_name() {
    let w = synthesize(&"Permissions".to_string(), Ownership::Unwrapped);
    assert_eq!(w.name, "AtomicPermissions");
    assert_eq!(w.storage, Storage::Bare);
    assert!(!w.derive_clone);
    assert!(w.derive_default);
    assert!(w.const_new);
}

#[test]
fn synthesis_selects_shared_storage() {
    let arc = synthesize(&"F".to_string(), Ownership::SharedMultiThread);
    assert_eq!(arc.storage, Storage::InArc);
    assert!(arc.derive_clone);
    assert!(arc.derive_default);
    assert!(!arc.const_new);

    let rc = synthesize(&"F".to_string(), Ownership::SharedSingleThread);
    assert_eq!(rc.storage, Storage::InRc);
    assert!(rc.derive_clone);
    assert!(rc.derive_default);
    assert!(!rc.const_new);
}

#[test]
fn unwrapped_output_is_constant_constructible() {
    let input = FlagSetDescriptor { name: "MyFlags".to_string(), config: Vec::new() };
    let text = atomflag_derive(&input).unwrap();
    let constant_new = String::from("pub const") + " fn new(value: <MyFlags";
    assert!(text.contains(&constant_new));
    assert!(text.contains("#[derive(Default)]"));
    assert!(!text.contains("Clone"));
    assert!(text.contains(
        "pub struct AtomicMyFlags(<<MyFlags as ::bitflags::Flags>::Bits as ::atomint::AtomicInt>::Atomic);"
    ));
}

#[test]
fn arc_output_shares_the_cell_behind_arc() {
    let input = FlagSetDescriptor {
        name: "MyFlags".to_string(),
        config: vec![strlit("wrapper", "Arc")],
    };
    let text = atomflag_derive(&input).unwrap();
    assert!(text.contains("#[derive(Clone, Default)]"));
    assert!(text.contains(
        "pub struct AtomicMyFlags(std::sync::Arc<<<MyFlags as ::bitflags::Flags>::Bits as ::atomint::AtomicInt>::Atomic>);"
    ));
    assert!(text.contains("Self(std::sync::Arc::new("));
    let constant_new = String::from("pub const");
    assert!(!text.contains(&constant_new));
}

#[test]
fn rc_output_shares_the_cell_behind_rc() {
    let input = FlagSetDescriptor {
        name: "MyFlags".to_string(),
        config: vec![strlit("wrapper", "Rc")],
    };
    let text = atomflag_derive(&input).unwrap();
    assert!(text.contains("#[derive(Clone, Default)]"));
    assert!(text.contains("pub struct AtomicMyFlags(std::rc::Rc<"));
    assert!(text.contains("Self(std::rc::Rc::new("));
}

#[test]
fn foo_configuration_fails_generation() {
    let input = FlagSetDescriptor {
        name: "MyFlags".to_string(),
        config: vec![strlit("wrapper", "Foo")],
    };
    let err = atomflag_derive(&input).unwrap_err();
    assert_eq!(err, GenError::UnsupportedOwnership);
    assert_eq!(err.message(), "Only 'Arc' and 'Rc' are supported.");
}

#[test]
fn output_covers_all_receiver_shapes() {
    let input = FlagSetDescriptor { name: "MyFlags".to_string(), config: Vec::new() };
    let text = atomflag_derive(&input).unwrap();
    for target in
        ["for AtomicMyFlags {", "for &AtomicMyFlags {", "for &mut AtomicMyFlags {"]
    {
        for family in ["BitAnd", "BitAndAssign", "BitOr", "BitOrAssign", "Sub", "SubAssign"] {
            let head = format!("impl std::ops::{}<MyFlags> {}", family, target);
            assert!(text.contains(&head), "missing {}", head);
        }
        let eq_head = format!("impl PartialEq<MyFlags> {}", target);
        assert!(text.contains(&eq_head), "missing {}", eq_head);
    }
    assert!(text.contains("impl From<AtomicMyFlags> for MyFlags"));
    assert!(text.contains("impl From<&AtomicMyFlags> for MyFlags"));
    assert!(text.contains("impl From<&mut AtomicMyFlags> for MyFlags"));
    assert!(text.contains("impl std::fmt::Display for AtomicMyFlags"));
    assert!(text.contains("impl std::fmt::Debug for AtomicMyFlags"));
}

#[test]
fn operations_use_the_atomic_primitives() {
    let input = FlagSetDescriptor { name: "F".to_string(), config: Vec::new() };
    let text = atomflag_derive(&input).unwrap();
    assert!(text.contains("fetch_and(rhs.bits(), std::sync::atomic::Ordering::Relaxed)"));
    assert!(text.contains("fetch_or(rhs.bits(), std::sync::atomic::Ordering::Relaxed)"));
    assert!(text.contains("fetch_and(!rhs.bits(), std::sync::atomic::Ordering::Relaxed)"));
    assert!(text.contains("self.0.load(std::sync::atomic::Ordering::Relaxed)"));
    assert!(text.contains("self.0.store(0, std::sync::atomic::Ordering::Relaxed);"));
    assert!(text.contains("F::from_bits_retain(self.bits())"));
}

#[test]
fn eq_impl_text_is_exact() {
    let t = emit_eq_impl(&"F".to_string(), &"AtomicF".to_string(), Receiver::Value);
    assert_eq!(
        t,
        "impl PartialEq<F> for AtomicF {\n    fn eq(&self, other: &F) -> bool {\n        self.get() == *other\n    }\n}\n\n"
    );
}

#[test]
fn bare_new_impl_text_is_exact() {
    let t = emit_new_impl(Storage::Bare, &"F".to_string());
    let expected = String::from("    pub const")
        + " fn new(value: <F as ::bitflags::Flags>::Bits) -> Self {\n        Self(<<<F as ::bitflags::Flags>::Bits as ::atomint::AtomicInt>::Atomic>::new(value))\n    }\n\n";
    assert_eq!(t, expected);
}

#[test]
fn mutable_receiver_operators_are_emitted() {
    let t = operator_impls(&"F".to_string(), &"AtomicF".to_string(), Receiver::ByMut);
    assert!(t.contains("impl std::ops::BitOr<F> for &mut AtomicF {"));
    assert!(t.contains("impl From<&mut AtomicF> for F {"));
}
