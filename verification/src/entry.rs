//! Decision logic of the boot-entry adapter.
//!
//! The device's loader invokes exactly one exported boot symbol. The
//! adapter turns a user-written entry function into that symbol: it
//! checks that the declaration has exactly the required shape, that the
//! adapter itself was given no arguments, and that every attached
//! attribute is on the allow-list; it renames the user function behind a
//! reserved prefix and generates a trampoline that constructs the single
//! hardware-capability value and calls the user function once, never to
//! return. Any deviation is a build-time rejection carrying a diagnostic
//! that names the required shape.
//!
//! This module holds every decision the adapter makes, on plain values;
//! the token-stream parsing and code emission around it stay outside the
//! library and hand the facts of the declaration in as a [`FnShape`] and a
//! list of [`AttrKind`]s.

use vstd::prelude::*;

use vstd::string::StringExecFns;

verus! {

/// The shape of an entry function's return type.
#[derive(Clone, Copy, PartialEq, Eq, Structural, Debug)]
pub enum ReturnShape {
    /// No return type was written, so it is implicitly the unit type.
    Implicit,
    /// The uninhabited never type: the function cannot return.
    Never,
    /// Any other written return type.
    Other,
}

/// The observable shape of a user-written entry function's declaration.
pub struct FnShape {
    /// Declared as a compile-time-evaluable function.
    pub is_const: bool,
    /// Has default (inherited) visibility, with no visibility qualifier.
    pub inherited_visibility: bool,
    /// Overrides the calling convention.
    pub has_abi_override: bool,
    /// Number of parameters.
    pub input_count: usize,
    /// Number of generic parameters (types, lifetimes or constants).
    pub generic_param_count: usize,
    /// Carries a where clause.
    pub has_where_clause: bool,
    /// Declares variable arguments.
    pub has_variadic: bool,
    /// The declared return type.
    pub output: ReturnShape,
}

/// The required shape of an entry function: not const, default visibility,
/// no calling-convention override, exactly one parameter (the
/// hardware-capability value, by value), no generic parameters, no where
/// clause, no variable arguments, and an uninhabited return type.
pub open spec fn spec_signature_is_valid(s: FnShape) -> bool {
    &&& !s.is_const
    &&& s.inherited_visibility
    &&& !s.has_abi_override
    &&& s.input_count == 1
    &&& s.generic_param_count == 0
    &&& !s.has_where_clause
    &&& !s.has_variadic
    &&& s.output is Never
}

/// Decides whether a declaration has the required entry-function shape.
pub fn signature_is_valid(s: &FnShape) -> (r: bool)
    ensures
        r == spec_signature_is_valid(*s),
{
    !s.is_const && s.inherited_visibility && !s.has_abi_override && s.input_count == 1
        && s.generic_param_count == 0 && !s.has_where_clause && !s.has_variadic && matches!(
    s.output,
    ReturnShape::Never)
}

/// The kind of an attribute attached to the entry function, by name.
///
/// The named kinds are exactly the allow-list: documentation, link
/// placement, conditional compilation and lint-level controls. Every
/// other attribute maps to [`AttrKind::Other`].
#[derive(Clone, Copy, PartialEq, Eq, Structural, Debug)]
pub enum AttrKind {
    Doc,
    LinkSection,
    Cfg,
    Allow,
    Warn,
    Deny,
    Forbid,
    Cold,
    Other,
}

/// Whether an attribute of this kind may stay on an entry function.
pub open spec fn spec_is_whitelisted(a: AttrKind) -> bool {
    !(a is Other)
}

/// Whether an attribute of this kind may stay on an entry function.
pub fn is_whitelisted(a: AttrKind) -> (r: bool)
    ensures
        r == spec_is_whitelisted(a),
{
    !matches!(a, AttrKind::Other)
}

/// Whether an attribute of this kind is a conditional-compilation
/// attribute, to be forwarded onto the generated boot symbol.
pub open spec fn spec_is_cfg(a: AttrKind) -> bool {
    a is Cfg
}

/// Whether an attribute of this kind is a conditional-compilation
/// attribute.
pub fn is_cfg(a: AttrKind) -> (r: bool)
    ensures
        r == spec_is_cfg(a),
{
    matches!(a, AttrKind::Cfg)
}

/// Checks every attached attribute against the allow-list.
///
/// Returns the index of the first attribute that is not allowed, if any.
pub fn check_attr_whitelist(attrs: &Vec<AttrKind>) -> (r: Result<(), usize>)
    ensures
        r is Ok <==> (forall|i: int| 0 <= i < attrs@.len() ==> spec_is_whitelisted(attrs@[i])),
        r matches Err(i) ==> 0 <= i < attrs@.len() && !spec_is_whitelisted(attrs@[i as int])
            && (forall|j: int| 0 <= j < i ==> spec_is_whitelisted(attrs@[j])),
{
    let mut k: usize = 0;
    while k < attrs.len()
        invariant
            k <= attrs@.len(),
            forall|j: int| 0 <= j < k ==> spec_is_whitelisted(attrs@[j]),
        decreases attrs@.len() - k,
    {
        if !is_whitelisted(attrs[k]) {
            return Err(k);
        }
        k += 1;
    }
    Ok(())
}

/// Splits the attached attributes into the conditional-compilation ones,
/// which are forwarded onto the generated boot symbol so conditional
/// builds still apply, and all the others, which stay on the user
/// function. Both keep their original order.
pub fn extract_cfgs(attrs: &Vec<AttrKind>) -> (r: (Vec<AttrKind>, Vec<AttrKind>))
    ensures
        r.0@ == attrs@.filter(|a: AttrKind| spec_is_cfg(a)),
        r.1@ == attrs@.filter(|a: AttrKind| !spec_is_cfg(a)),
{
    let mut cfgs: Vec<AttrKind> = Vec::new();
    let mut not_cfgs: Vec<AttrKind> = Vec::new();
    let mut k: usize = 0;
    proof {
        reveal(Seq::filter);
        assert(attrs@.subrange(0, 0).filter(|a: AttrKind| spec_is_cfg(a)) =~= Seq::<
            AttrKind,
        >::empty());
        assert(attrs@.subrange(0, 0).filter(|a: AttrKind| !spec_is_cfg(a)) =~= Seq::<
            AttrKind,
        >::empty());
    }
    while k < attrs.len()
        invariant
            k <= attrs@.len(),
            cfgs@ == attrs@.subrange(0, k as int).filter(|a: AttrKind| spec_is_cfg(a)),
            not_cfgs@ == attrs@.subrange(0, k as int).filter(|a: AttrKind| !spec_is_cfg(a)),
        decreases attrs@.len() - k,
    {
        let a = attrs[k];
        if is_cfg(a) {
            cfgs.push(a);
        } else {
            not_cfgs.push(a);
        }
        proof {
            reveal(Seq::filter);
            let pre = attrs@.subrange(0, k as int);
            let cur = attrs@.subrange(0, k as int + 1);
            assert(cur.drop_last() =~= pre);
            assert(cur.last() == attrs@[k as int]);
            assert(cfgs@ == cur.filter(|a: AttrKind| spec_is_cfg(a)));
            assert(not_cfgs@ == cur.filter(|a: AttrKind| !spec_is_cfg(a)));
        }
        k += 1;
    }
    proof {
        assert(attrs@.subrange(0, attrs@.len() as int) =~= attrs@);
    }
    (cfgs, not_cfgs)
}

/// Why the entry adapter rejected a declaration.
#[derive(Clone, Copy, PartialEq, Eq, Structural, Debug)]
pub enum EntryError {
    /// The signature does not have the required shape.
    InvalidSignature,
    /// The adapter's own attribute was given arguments; it accepts none.
    UnexpectedArguments,
    /// The attached attribute at this index is not on the allow-list.
    ForbiddenAttribute(usize),
}

/// The build-time diagnostic for each rejection.
pub open spec fn spec_diagnostic(e: EntryError) -> Seq<char> {
    match e {
        EntryError::InvalidSignature => "`#[entry]` function must have signature `[unsafe] fn(gba::Gba) -> !`"@,
        EntryError::UnexpectedArguments => "This attribute accepts no arguments"@,
        EntryError::ForbiddenAttribute(_) => "this attribute is not allowed on a Gba entry point"@,
    }
}

impl EntryError {
    /// The build-time diagnostic for this rejection; for a rejected
    /// signature it names the required shape.
    pub fn diagnostic(&self) -> (r: &'static str)
        ensures
            r@ == spec_diagnostic(*self),
    {
        match self {
            EntryError::InvalidSignature => "`#[entry]` function must have signature `[unsafe] fn(gba::Gba) -> !`",
            EntryError::UnexpectedArguments => "This attribute accepts no arguments",
            EntryError::ForbiddenAttribute(_) => "this attribute is not allowed on a Gba entry point",
        }
    }
}

/// Validates a user entry declaration: the signature shape first, then
/// that the adapter's attribute received no arguments, then every
/// attached attribute against the allow-list. The first failing check
/// decides the rejection.
pub fn validate_entry(shape: &FnShape, args_empty: bool, attrs: &Vec<AttrKind>) -> (r: Result<
    (),
    EntryError,
>)
    ensures
        r is Ok <==> (spec_signature_is_valid(*shape) && args_empty && (forall|i: int|
            0 <= i < attrs@.len() ==> spec_is_whitelisted(attrs@[i]))),
        !spec_signature_is_valid(*shape) ==> r == Err::<(), EntryError>(
            EntryError::InvalidSignature,
        ),
        spec_signature_is_valid(*shape) && !args_empty ==> r == Err::<(), EntryError>(
            EntryError::UnexpectedArguments,
        ),
        spec_signature_is_valid(*shape) && args_empty && !(forall|i: int|
            0 <= i < attrs@.len() ==> spec_is_whitelisted(attrs@[i])) ==> (r matches Err(e)
            && e is ForbiddenAttribute),
        r matches Err(EntryError::ForbiddenAttribute(i)) ==> 0 <= i < attrs@.len()
            && !spec_is_whitelisted(attrs@[i as int]) && (forall|j: int|
            0 <= j < i ==> spec_is_whitelisted(attrs@[j])),
{
    if !signature_is_valid(shape) {
        return Err(EntryError::InvalidSignature);
    }
    if !args_empty {
        return Err(EntryError::UnexpectedArguments);
    }
    match check_attr_whitelist(attrs) {
        Ok(_) => Ok(()),
        Err(i) => Err(EntryError::ForbiddenAttribute(i)),
    }
}

/// The name the user function is renamed to: the user's identifier behind
/// a reserved prefix, so that the generated boot symbol can call it
/// without clashing with any user-visible name.
pub fn mangled_entry_name(ident: &str) -> (r: String)
    ensures
        r@ == "__gba_rt_"@ + ident@,
{
    let mut s = String::from_str("__gba_rt_");
    s.append(ident);
    s
}

/// The name of the generated boot trampoline, derived from the renamed
/// user function's name.
pub fn trampoline_name(mangled: &str) -> (r: String)
    ensures
        r@ == mangled@ + "_trampoline"@,
{
    let mut s = String::from_str(mangled);
    s.append("_trampoline");
    s
}

} // verus!
