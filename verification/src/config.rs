//! Configuration resolution: from the raw configuration attached to a flag
//! declaration to the wrapper's ownership shape.
//!
//! A declaration may carry configuration entries.  The one the generator
//! reads is a named value `wrapper = "..."`; its string decides whether the
//! atomic cell is held directly or behind one of two reference-counted
//! containers.  Any malformed entry under that name halts generation; an
//! unrecognized string is a terminal error, never a silent fallback; only
//! true absence of the option selects the unwrapped default.

use vstd::prelude::*;
use vstd::string::StringExecFns;

verus! {

/// The ownership shape of the generated wrapper.
#[derive(Clone, Copy, PartialEq, Eq, Structural, Debug)]
pub enum Ownership {
    /// The atomic cell is held directly; single-owner semantics and a
    /// constant-context constructor.
    Unwrapped,
    /// The cell sits behind a thread-safe reference-counted container;
    /// handles may be duplicated and shared across threads.
    SharedMultiThread,
    /// The cell sits behind a reference-counted container restricted to one
    /// thread of control; handles may be duplicated but must not cross
    /// thread boundaries.
    SharedSingleThread,
}

/// A terminal generation error.  Every error halts generation for the
/// offending declaration; no partial artifact is emitted.
#[derive(Clone, Copy, PartialEq, Eq, Structural, Debug)]
pub enum GenError {
    /// The configured value is a literal, but not a string literal.
    ExpectedStringLiteral,
    /// The configured value is not a literal expression at all.
    ExpectedLiteralExpression,
    /// The configured string names an ownership shape the generator does
    /// not know.
    UnsupportedOwnership,
}

/// The value of a named configuration entry, as far as the generator needs
/// to distinguish its shape.
pub enum ConfigValue {
    /// A string literal and its contents.
    StrLit(String),
    /// A literal of some other kind.
    NonStrLit,
    /// An expression that is not a literal.
    NonLiteral,
}

/// One configuration entry attached to the declaration.
pub enum ConfigMeta {
    /// A named value, `key = value`.
    NameValue { key: String, value: ConfigValue },
    /// An entry of another shape (a bare name or a list); it names nothing
    /// applicable and is ignored.
    Marker,
}

impl GenError {
    /// The diagnostic reported for this error.
    pub fn message(&self) -> (m: &'static str)
        ensures
            self is ExpectedStringLiteral ==> m@ == "Expected string literal."@,
            self is ExpectedLiteralExpression ==> m@ == "Expected literal expression."@,
            self is UnsupportedOwnership ==> m@ == "Only 'Arc' and 'Rc' are supported."@,
    {
        match self {
            GenError::ExpectedStringLiteral => "Expected string literal.",
            GenError::ExpectedLiteralExpression => "Expected literal expression.",
            GenError::UnsupportedOwnership => "Only 'Arc' and 'Rc' are supported.",
        }
    }
}

/// Scan the configuration entries in order, carrying the wrapper string
/// selected so far.  A later `wrapper` entry overrides an earlier one; a
/// malformed `wrapper` entry is a terminal error at the point it appears.
pub open spec fn scan_wrapper(
    metas: Seq<ConfigMeta>,
    acc: Option<Seq<char>>,
) -> Result<Option<Seq<char>>, GenError>
    decreases metas.len(),
{
    if metas.len() == 0 {
        Ok(acc)
    } else {
        match metas[0] {
            ConfigMeta::NameValue { key, value } => if key@ == "wrapper"@ {
                match value {
                    ConfigValue::StrLit(s) => scan_wrapper(metas.drop_first(), Some(s@)),
                    ConfigValue::NonStrLit => Err(GenError::ExpectedStringLiteral),
                    ConfigValue::NonLiteral => Err(GenError::ExpectedLiteralExpression),
                }
            } else {
                scan_wrapper(metas.drop_first(), acc)
            },
            ConfigMeta::Marker => scan_wrapper(metas.drop_first(), acc),
        }
    }
}

/// The ownership shape named by a selected wrapper string: `"Arc"` and
/// `"Rc"` are the only recognized tokens; absence is the only way to the
/// unwrapped default.
pub open spec fn ownership_of(sel: Option<Seq<char>>) -> Result<Ownership, GenError> {
    match sel {
        None => Ok(Ownership::Unwrapped),
        Some(s) => if s == "Arc"@ {
            Ok(Ownership::SharedMultiThread)
        } else if s == "Rc"@ {
            Ok(Ownership::SharedSingleThread)
        } else {
            Err(GenError::UnsupportedOwnership)
        },
    }
}

/// What resolution returns for a whole configuration.
pub open spec fn resolve_spec(metas: Seq<ConfigMeta>) -> Result<Ownership, GenError> {
    match scan_wrapper(metas, None) {
        Ok(sel) => ownership_of(sel),
        Err(e) => Err(e),
    }
}

/// Whether a configuration entry names the `wrapper` option at all.
pub open spec fn names_wrapper(m: ConfigMeta) -> bool {
    m matches ConfigMeta::NameValue { key, .. } && key@ == "wrapper"@
}

proof fn lemma_scan_no_wrapper(metas: Seq<ConfigMeta>, acc: Option<Seq<char>>)
    requires
        forall|i: int| 0 <= i < metas.len() ==> !names_wrapper(#[trigger] metas[i]),
    ensures
        scan_wrapper(metas, acc) == Ok::<Option<Seq<char>>, GenError>(acc),
    decreases metas.len(),
{
    if metas.len() > 0 {
        let dl = metas.drop_first();
        assert(forall|i: int| 0 <= i < dl.len() ==> !names_wrapper(#[trigger] dl[i])) by {
            assert(forall|i: int| 0 <= i < dl.len() ==> dl[i] == metas[i + 1]);
        }
        lemma_scan_no_wrapper(dl, acc);
    }
}

/// True absence is the only implicit default: a configuration in which no
/// entry names the `wrapper` option resolves to the unwrapped shape.
pub proof fn lemma_absence_defaults_to_unwrapped(metas: Seq<ConfigMeta>)
    requires
        forall|i: int| 0 <= i < metas.len() ==> !names_wrapper(#[trigger] metas[i]),
    ensures
        resolve_spec(metas) == Ok::<Ownership, GenError>(Ownership::Unwrapped),
{
    lemma_scan_no_wrapper(metas, None);
}

/// The view of the wrapper string carried while scanning.
pub open spec fn acc_view(acc: Option<String>) -> Option<Seq<char>> {
    match acc {
        None => None,
        Some(s) => Some(s@),
    }
}

/// Resolve the ownership shape from the configuration entries of one
/// declaration.  Purely a classification of the input: no side effects.
pub fn resolve_ownership(metas: &Vec<ConfigMeta>) -> (r: Result<Ownership, GenError>)
    ensures
        r == resolve_spec(metas@),
{
    let wrapper_key = String::from_str("wrapper");
    let mut acc: Option<String> = None;
    proof {
        assert(metas@.skip(0) =~= metas@);
    }
    for i in 0..metas.len()
        invariant
            wrapper_key@ == "wrapper"@,
            scan_wrapper(metas@.skip(i as int), acc_view(acc)) == scan_wrapper(metas@, None),
    {
        let ghost acc0 = acc_view(acc);
        let ghost rest = metas@.skip(i as int);
        proof {
            assert(rest.drop_first() =~= metas@.skip(i + 1 as int));
            assert(rest[0] == metas@[i as int]);
        }
        match &metas[i] {
            ConfigMeta::NameValue { key, value } => {
                if *key == wrapper_key {
                    match value {
                        ConfigValue::StrLit(s) => {
                            acc = Some(s.clone());
                            proof {
                                assert(scan_wrapper(rest, acc0) == scan_wrapper(
                                    rest.drop_first(),
                                    acc_view(acc),
                                ));
                            }
                        },
                        ConfigValue::NonStrLit => {
                            proof {
                                assert(scan_wrapper(rest, acc0) == Err::<
                                    Option<Seq<char>>,
                                    GenError,
                                >(GenError::ExpectedStringLiteral));
                            }
                            return Err(GenError::ExpectedStringLiteral);
                        },
                        ConfigValue::NonLiteral => {
                            proof {
                                assert(scan_wrapper(rest, acc0) == Err::<
                                    Option<Seq<char>>,
                                    GenError,
                                >(GenError::ExpectedLiteralExpression));
                            }
                            return Err(GenError::ExpectedLiteralExpression);
                        },
                    }
                } else {
                    proof {
                        assert(scan_wrapper(rest, acc0) == scan_wrapper(
                            rest.drop_first(),
                            acc_view(acc),
                        ));
                    }
                }
            },
            ConfigMeta::Marker => {
                proof {
                    assert(scan_wrapper(rest, acc0) == scan_wrapper(
                        rest.drop_first(),
                        acc_view(acc),
                    ));
                }
            },
        }
    }
    proof {
        assert(metas@.skip(metas@.len() as int) =~= Seq::<ConfigMeta>::empty());
    }
    match &acc {
        None => Ok(Ownership::Unwrapped),
        Some(s) => {
            if *s == String::from_str("Arc") {
                Ok(Ownership::SharedMultiThread)
            } else if *s == String::from_str("Rc") {
                Ok(Ownership::SharedSingleThread)
            } else {
                Err(GenError::UnsupportedOwnership)
            }
        },
    }
}

} // verus!
