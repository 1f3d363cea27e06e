//! `@derive` attribute support: which traits a struct or enum asks to have
//! generated.
//!
//! Supported traits: Debug, Clone, PartialEq, Eq, Default and Hash.

use vstd::prelude::*;

use crate::ast::{attribute_name, Attribute, EnumDef, Expr, Spanned, StructDef};
use crate::text::str_eq;

verus! {

/// Derivable traits supported by the `@derive` attribute.
#[derive(Debug, Clone, Copy, PartialEq, Eq, Structural)]
pub enum DeriveTrait {
    /// Debug: generate a string representation for debugging
    Debug,
    /// Clone: generate a clone implementation
    Clone,
    /// PartialEq: generate an equality comparison
    PartialEq,
    /// Eq: marker for total equality (requires PartialEq)
    Eq,
    /// Default: generate a default value constructor
    Default,
    /// Hash: generate a hash implementation
    Hash,
}

/// The name a trait is written with in `@derive(...)`.
pub open spec fn derive_trait_name(t: DeriveTrait) -> Seq<char> {
    match t {
        DeriveTrait::Debug => "Debug"@,
        DeriveTrait::Clone => "Clone"@,
        DeriveTrait::PartialEq => "PartialEq"@,
        DeriveTrait::Eq => "Eq"@,
        DeriveTrait::Default => "Default"@,
        DeriveTrait::Hash => "Hash"@,
    }
}

/// The trait written exactly as `s` (case-sensitive), if any.
pub open spec fn derive_trait_named(s: Seq<char>) -> Option<DeriveTrait> {
    if s == "Debug"@ {
        Some(DeriveTrait::Debug)
    } else if s == "Clone"@ {
        Some(DeriveTrait::Clone)
    } else if s == "PartialEq"@ {
        Some(DeriveTrait::PartialEq)
    } else if s == "Eq"@ {
        Some(DeriveTrait::Eq)
    } else if s == "Default"@ {
        Some(DeriveTrait::Default)
    } else if s == "Hash"@ {
        Some(DeriveTrait::Hash)
    } else {
        None
    }
}

/// The traits named by the arguments of one `@derive(...)`, in order:
/// each argument that is a bare identifier naming a supported trait.
pub open spec fn traits_of_args(args: Seq<Spanned<Expr>>) -> Seq<DeriveTrait>
    decreases args.len(),
{
    if args.len() == 0 {
        Seq::empty()
    } else {
        traits_of_args(args.drop_last()) + match args.last().node {
            Expr::Var(n) => match derive_trait_named(n@) {
                Some(t) => seq![t],
                None => Seq::empty(),
            },
            _ => Seq::empty(),
        }
    }
}

/// The traits one attribute derives: the arguments of an `@derive(...)`
/// with arguments, nothing for any other attribute.
pub open spec fn traits_of_attribute(a: Attribute) -> Seq<DeriveTrait> {
    if attribute_name(a) == "derive"@ {
        match a {
            Attribute::WithArgs { args, .. } => traits_of_args(args@),
            _ => Seq::empty(),
        }
    } else {
        Seq::empty()
    }
}

/// The traits a list of attributes derives, in order, duplicates kept.
pub open spec fn derive_traits(attrs: Seq<Attribute>) -> Seq<DeriveTrait>
    decreases attrs.len(),
{
    if attrs.len() == 0 {
        Seq::empty()
    } else {
        derive_traits(attrs.drop_last()) + traits_of_attribute(attrs.last())
    }
}

impl DeriveTrait {
    /// Parses a trait name (case-sensitive, no surrounding whitespace).
    pub fn from_str(s: &str) -> (r: Option<DeriveTrait>)
        ensures
            r == derive_trait_named(s@),
    {
        if str_eq(s, "Debug") {
            Some(DeriveTrait::Debug)
        } else if str_eq(s, "Clone") {
            Some(DeriveTrait::Clone)
        } else if str_eq(s, "PartialEq") {
            Some(DeriveTrait::PartialEq)
        } else if str_eq(s, "Eq") {
            Some(DeriveTrait::Eq)
        } else if str_eq(s, "Default") {
            Some(DeriveTrait::Default)
        } else if str_eq(s, "Hash") {
            Some(DeriveTrait::Hash)
        } else {
            None
        }
    }

    /// The trait's name.
    pub fn as_str(&self) -> (r: &'static str)
        ensures
            r@ == derive_trait_name(*self),
    {
        match self {
            DeriveTrait::Debug => "Debug",
            DeriveTrait::Clone => "Clone",
            DeriveTrait::PartialEq => "PartialEq",
            DeriveTrait::Eq => "Eq",
            DeriveTrait::Default => "Default",
            DeriveTrait::Hash => "Hash",
        }
    }
}

/// Parsing the name of a trait gives the trait back, so no two traits
/// share a name.
pub proof fn lemma_derive_trait_name_roundtrip(t: DeriveTrait)
    ensures
        derive_trait_named(derive_trait_name(t)) == Some(t),
{
    reveal_strlit("Debug");
    reveal_strlit("Clone");
    reveal_strlit("PartialEq");
    reveal_strlit("Eq");
    reveal_strlit("Default");
    reveal_strlit("Hash");
    // Debug and Default share a first letter but not a length; every
    // other pair differs in its first letter or its length.
    assert("Clone"@[0] != "Debug"@[0]);
    assert("PartialEq"@[0] != "Debug"@[0]);
    assert("PartialEq"@[0] != "Clone"@[0]);
    assert("Eq"@.len() != "Debug"@.len());
    assert("Eq"@[0] != "Clone"@[0]);
    assert("Eq"@[0] != "PartialEq"@[0]);
    assert("Default"@.len() != "Debug"@.len());
    assert("Default"@[0] != "Clone"@[0]);
    assert("Default"@[0] != "PartialEq"@[0]);
    assert("Default"@.len() != "Eq"@.len());
    assert("Hash"@[0] != "Debug"@[0]);
    assert("Hash"@[0] != "Clone"@[0]);
    assert("Hash"@[0] != "PartialEq"@[0]);
    assert("Hash"@[0] != "Eq"@[0]);
    assert("Hash"@[0] != "Default"@[0]);
}

/// The supported traits named by the arguments of one attribute.
fn traits_from_args(args: &Vec<Spanned<Expr>>, traits: &mut Vec<DeriveTrait>)
    ensures
        final(traits)@ == old(traits)@ + traits_of_args(args@),
{
    let mut i: usize = 0;
    while i < args.len()
        invariant
            i <= args.len(),
            traits@ == old(traits)@ + traits_of_args(args@.subrange(0, i as int)),
        decreases args.len() - i,
    {
        let ghost before = traits@;
        let arg = &args[i];
        if let Expr::Var(name) = &arg.node {
            if let Some(t) = DeriveTrait::from_str(name.as_str()) {
                traits.push(t);
            }
        }
        assert(args@.subrange(0, i + 1).drop_last() =~= args@.subrange(0, i as int));
        i = i + 1;
        assert(traits@ =~= old(traits)@ + traits_of_args(args@.subrange(0, i as int)));
    }
    assert(args@.subrange(0, args.len() as int) =~= args@);
}

/// Extracts the derived traits from a list of attributes, in order, with
/// duplicates kept. Only `@derive(...)` attributes with arguments count;
/// arguments that are not bare identifiers, or name an unsupported trait,
/// are skipped.
pub fn extract_derive_traits(attrs: &[Attribute]) -> (traits: Vec<DeriveTrait>)
    ensures
        traits@ == derive_traits(attrs@),
{
    let mut traits: Vec<DeriveTrait> = Vec::new();
    let mut i: usize = 0;
    while i < attrs.len()
        invariant
            i <= attrs.len(),
            traits@ == derive_traits(attrs@.subrange(0, i as int)),
        decreases attrs.len() - i,
    {
        let attr = &attrs[i];
        if str_eq(attr.name(), "derive") {
            if let Attribute::WithArgs { args, .. } = attr {
                traits_from_args(args, &mut traits);
            }
        }
        assert(attrs@.subrange(0, i + 1).drop_last() =~= attrs@.subrange(0, i as int));
        i = i + 1;
        assert(traits@ =~= derive_traits(attrs@.subrange(0, i as int)));
    }
    assert(attrs@.subrange(0, attrs.len() as int) =~= attrs@);
    traits
}

/// Whether `t` occurs in `traits`.
fn contains_trait(traits: &Vec<DeriveTrait>, t: DeriveTrait) -> (r: bool)
    ensures
        r == traits@.contains(t),
{
    let mut i: usize = 0;
    while i < traits.len()
        invariant
            i <= traits.len(),
            forall|k: int| 0 <= k < i ==> traits@[k] != t,
        decreases traits.len() - i,
    {
        if traits[i] == t {
            assert(traits@[i as int] == t);
            return true;
        }
        i = i + 1;
    }
    false
}

/// Whether a struct derives `trait_kind`.
pub fn has_derive_trait(def: &StructDef, trait_kind: DeriveTrait) -> (r: bool)
    ensures
        r == derive_traits(def.attributes@).contains(trait_kind),
{
    let traits = extract_derive_traits(def.attributes.as_slice());
    contains_trait(&traits, trait_kind)
}

/// Whether an enum derives `trait_kind`.
pub fn has_derive_trait_enum(def: &EnumDef, trait_kind: DeriveTrait) -> (r: bool)
    ensures
        r == derive_traits(def.attributes@).contains(trait_kind),
{
    let traits = extract_derive_traits(def.attributes.as_slice());
    contains_trait(&traits, trait_kind)
}

/// What code generation needs to derive traits for one type.
pub struct DeriveContext<'a> {
    /// Name of the type being derived
    pub name: &'a str,
    /// Traits to derive
    pub traits: Vec<DeriveTrait>,
}

impl<'a> DeriveContext<'a> {
    /// The context for a struct definition.
    pub fn from_struct(def: &'a StructDef) -> (ctx: Self)
        ensures
            ctx.name@ == def.name.node@,
            ctx.traits@ == derive_traits(def.attributes@),
    {
        DeriveContext {
            name: def.name.node.as_str(),
            traits: extract_derive_traits(def.attributes.as_slice()),
        }
    }

    /// The context for an enum definition.
    pub fn from_enum(def: &'a EnumDef) -> (ctx: Self)
        ensures
            ctx.name@ == def.name.node@,
            ctx.traits@ == derive_traits(def.attributes@),
    {
        DeriveContext {
            name: def.name.node.as_str(),
            traits: extract_derive_traits(def.attributes.as_slice()),
        }
    }

    /// Whether the context derives `trait_kind`.
    pub fn has_trait(&self, trait_kind: DeriveTrait) -> (r: bool)
        ensures
            r == self.traits@.contains(trait_kind),
    {
        contains_trait(&self.traits, trait_kind)
    }
}

/// The traits of several attribute lists together are the traits of each
/// list, in order: derives spread over several `@derive` attributes add up.
pub proof fn lemma_derive_traits_concat(a: Seq<Attribute>, b: Seq<Attribute>)
    ensures
        derive_traits(a + b) == derive_traits(a) + derive_traits(b),
    decreases b.len(),
{
    if b.len() == 0 {
        assert(a + b =~= a);
        assert(derive_traits(a) + derive_traits(b) =~= derive_traits(a));
    } else {
        lemma_derive_traits_concat(a, b.drop_last());
        assert((a + b).drop_last() =~= a + b.drop_last());
        assert((a + b).last() == b.last());
        assert(derive_traits(a + b) =~= derive_traits(a) + derive_traits(b));
    }
}

} // verus!
