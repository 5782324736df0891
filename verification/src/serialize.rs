//! The parse adapter: from the external compiler's tree to an owned
//! [`Name`], or a classified error.
//!
//! The external grammar compiler is an outside collaborator with exactly two
//! operations: compile a NUL-terminated text buffer into a tree, returning a
//! failure sentinel on a syntax error, and release a produced tree.  The
//! caller drives those two operations; this module owns everything between
//! them: [`prepare_input`] builds the terminated buffer (rejecting text the
//! buffer cannot carry), and [`parse_compiled`] classifies a compile failure
//! and otherwise walks the tree depth-first, rebuilding it node by node
//! under the allocation gauge.  The tree handed in is handed back unchanged,
//! exactly once, so the caller can release it on every path.
//!
//! No failure returns a partial result: the result type carries either the
//! finished owned name or the classified error, and whatever nodes were
//! built before an abort are reclaimed by ordinary ownership teardown.

use vstd::prelude::*;
use vstd::string::StringSliceAdditionalSpecFns;
use vstd::utf8::decode_utf8;
use vstd::utf8::valid_utf8;

use crate::gauge::AllocGauge;
use crate::name::Declaration;
use crate::name::Identifier;
use crate::name::Name;
use crate::name::NameRef;
use crate::name::NamespaceId;
use crate::name::Parameter;
use crate::name::ParameterizedId;
use crate::name::Substitution;
use crate::name::SubstitutionSpec;
use crate::name::OutputRef;
use crate::translate::binding_matches;
use crate::translate::decl_oom;
use crate::translate::decls_fill_oom;
use crate::translate::input_spec_oom;
use crate::translate::inputs_oom;
use crate::translate::name_oom;
use crate::translate::nameref_oom;
use crate::translate::paramid_oom;
use crate::translate::params_oom;
use crate::translate::qual_oom;
use crate::translate::specs_fill_oom;
use crate::translate::subst_oom;
use crate::translate::AllocKind;
use crate::translate::binding_text_ok;
use crate::translate::decl_allocs;
use crate::translate::decl_matches;
use crate::translate::decl_supported;
use crate::translate::decl_text_ok;
use crate::translate::decls_fill_allocs;
use crate::translate::decls_match;
use crate::translate::decls_supported;
use crate::translate::decls_text_ok;
use crate::translate::input_spec_allocs;
use crate::translate::input_spec_matches;
use crate::translate::input_spec_supported;
use crate::translate::input_spec_text_ok;
use crate::translate::inputs_allocs;
use crate::translate::inputs_match;
use crate::translate::inputs_supported;
use crate::translate::inputs_text_ok;
use crate::translate::label_matches;
use crate::translate::label_text_ok;
use crate::translate::name_allocs;
use crate::translate::name_matches;
use crate::translate::name_supported;
use crate::translate::name_text_ok;
use crate::translate::nameref_allocs;
use crate::translate::nameref_matches;
use crate::translate::nameref_supported;
use crate::translate::nameref_text_ok;
use crate::translate::outsel_matches;
use crate::translate::outsel_text_ok;
use crate::translate::param_matches;
use crate::translate::param_text_ok;
use crate::translate::paramid_allocs;
use crate::translate::paramid_matches;
use crate::translate::paramid_text_ok;
use crate::translate::paramlist_match;
use crate::translate::paramlist_text_ok;
use crate::translate::params_allocs;
use crate::translate::params_match;
use crate::translate::params_text_ok;
use crate::translate::qual_allocs;
use crate::translate::qual_matches;
use crate::translate::qual_supported;
use crate::translate::qual_text_ok;
use crate::translate::specs_fill_allocs;
use crate::translate::specs_match;
use crate::translate::specs_supported;
use crate::translate::specs_text_ok;
use crate::translate::subst_allocs;
use crate::translate::subst_matches;
use crate::translate::subst_supported;
use crate::translate::subst_text_ok;
use crate::tree::TreeBinding;
use crate::tree::TreeDeclaration;
use crate::tree::TreeDeclarations;
use crate::tree::TreeGraphIndex;
use crate::tree::TreeInputLabel;
use crate::tree::TreeInputSpec;
use crate::tree::TreeInputSpecs;
use crate::tree::TreeInputs;
use crate::tree::TreeName;
use crate::tree::TreeNameRef;
use crate::tree::TreeOutputSelector;
use crate::tree::TreeParam;
use crate::tree::TreeParamList;
use crate::tree::TreeParameterizedId;
use crate::tree::TreeParams;
use crate::tree::TreeQualification;
use crate::tree::TreeSubstitution;

verus! {

/// Why a parse failed.  Every failure is terminal for the call and no
/// partial tree is ever returned beside one.
#[derive(Clone, Copy, Debug, PartialEq, Eq, Structural)]
pub enum ParseError {
    /// The source text holds a byte the compiler's terminated buffer cannot
    /// carry; the compiler was never invoked.
    NulInInput,
    /// The external compiler rejected the text; no further detail is
    /// available at this layer.
    BnfcParseError,
    /// A collection reservation was refused while building the owned tree.
    VecAllocationError,
    /// An owned-node allocation was refused while building the owned tree.
    BoxAllocationError,
    /// A text payload inside an otherwise valid tree is not valid UTF-8.
    StringNotUtf8,
    /// The tree uses a recognized construct that has no translation rule
    /// yet; no partial or guessed tree is produced for it.
    NotSupported,
}

impl From<cstr_core::NulError> for ParseError {
    fn from(e: cstr_core::NulError) -> (r: Self) {
        ParseError::NulInInput
    }
}

impl vstd::std_specs::convert::FromSpecImpl<cstr_core::NulError> for ParseError {
    open spec fn obeys_from_spec() -> bool {
        true
    }

    open spec fn from_spec(e: cstr_core::NulError) -> Self {
        ParseError::NulInInput
    }
}

/// What an aborted walk may report: each error names a cause that the tree,
/// or the gauge the walk started from, really has.
pub open spec fn abort_cause(
    supported: bool,
    text_ok: bool,
    g: AllocGauge,
    allocs: nat,
    e: ParseError,
) -> bool {
    match e {
        ParseError::NotSupported => !supported,
        ParseError::StringNotUtf8 => !text_ok,
        ParseError::VecAllocationError => !g.allows(allocs),
        ParseError::BoxAllocationError => !g.allows(allocs),
        ParseError::NulInInput => false,
        ParseError::BnfcParseError => false,
    }
}

/// The error each kind of refused allocation request reports: a chain
/// reservation reports the collection error, an owned-node allocation the
/// node error.
pub open spec fn oom_error(k: AllocKind) -> ParseError {
    match k {
        AllocKind::Reservation => ParseError::VecAllocationError,
        AllocKind::Node => ParseError::BoxAllocationError,
    }
}

// ---------------------------------------------------------------------------
// Trusted boundary
// ---------------------------------------------------------------------------
#[verifier::external_type_specification]
#[verifier::external_body]
pub struct ExCString(cstr_core::CString);

#[verifier::external_type_specification]
#[verifier::external_body]
pub struct ExNulError(cstr_core::NulError);

/// The bytes a terminated buffer carries, terminator included.
pub uninterp spec fn cstring_bytes(c: cstr_core::CString) -> Seq<u8>;

/// Relies on `cstr_core::CString::new`: it scans the byte form of the text
/// for an interior NUL, fails exactly when one is present, and otherwise
/// carries exactly those bytes with one terminator appended.
#[verifier::external_body]
fn cstring_new(s: &str) -> (r: Result<cstr_core::CString, cstr_core::NulError>)
    ensures
        r is Ok <==> !s.spec_bytes().contains(0u8),
        r matches Ok(c) ==> cstring_bytes(c) == s.spec_bytes() + seq![0u8],
{
    cstr_core::CString::new(s)
}

/// Relies on `String::from_utf8`: it succeeds exactly on valid UTF-8 input
/// and returns the text those bytes encode.
#[verifier::external_body]
fn string_from_utf8(b: &Vec<u8>) -> (r: Option<String>)
    ensures
        r is Some <==> valid_utf8(b@),
        r matches Some(s) ==> s@ == decode_utf8(b@),
{
    String::from_utf8(b.clone()).ok()
}

// ---------------------------------------------------------------------------
// Leaf conversions: text payloads and optional identifiers
// ---------------------------------------------------------------------------
/// Copies a text payload out of the tree, validating it as UTF-8.
fn convert_text(b: &Vec<u8>) -> (r: Result<String, ParseError>)
    ensures
        r is Ok <==> valid_utf8(b@),
        r matches Ok(s) ==> s@ == decode_utf8(b@),
        r matches Err(e) ==> e == ParseError::StringNotUtf8,
{
    match string_from_utf8(b) {
        Some(s) => Ok(s),
        None => Err(ParseError::StringNotUtf8),
    }
}

fn convert_binding(b: &TreeBinding) -> (r: Result<Option<Identifier>, ParseError>)
    ensures
        r is Ok <==> binding_text_ok(*b),
        r matches Ok(v) ==> binding_matches(*b, v),
        r matches Err(e) ==> e == ParseError::StringNotUtf8 && !binding_text_ok(*b),
{
    match b {
        TreeBinding::Unbound => Ok(None),
        TreeBinding::Bound(bytes) => match convert_text(bytes) {
            Ok(s) => Ok(Some(Identifier(s))),
            Err(e) => Err(e),
        },
    }
}

fn convert_label(l: &TreeInputLabel) -> (r: Result<Option<Identifier>, ParseError>)
    ensures
        r is Ok <==> label_text_ok(*l),
        r matches Ok(v) ==> label_matches(*l, v),
        r matches Err(e) ==> e == ParseError::StringNotUtf8 && !label_text_ok(*l),
{
    match l {
        TreeInputLabel::Unlabeled => Ok(None),
        TreeInputLabel::Labeled(bytes) => match convert_text(bytes) {
            Ok(s) => Ok(Some(Identifier(s))),
            Err(e) => Err(e),
        },
    }
}

fn convert_outsel(o: &TreeOutputSelector) -> (r: Result<Option<Identifier>, ParseError>)
    ensures
        r is Ok <==> outsel_text_ok(*o),
        r matches Ok(v) ==> outsel_matches(*o, v),
        r matches Err(e) ==> e == ParseError::StringNotUtf8 && !outsel_text_ok(*o),
{
    match o {
        TreeOutputSelector::DefaultOutput => Ok(None),
        TreeOutputSelector::NamedOutput(bytes) => match convert_text(bytes) {
            Ok(s) => Ok(Some(Identifier(s))),
            Err(e) => Err(e),
        },
    }
}

fn convert_param(p: &TreeParam) -> (r: Result<Parameter, ParseError>)
    ensures
        r is Ok <==> param_text_ok(*p),
        r matches Ok(a) ==> param_matches(*p, a),
        r matches Err(e) ==> e == ParseError::StringNotUtf8 && !param_text_ok(*p),
{
    let key = match convert_text(&p.key) {
        Ok(s) => s,
        Err(e) => {
            return Err(e);
        },
    };
    let val = match convert_text(&p.val) {
        Ok(s) => s,
        Err(e) => {
            return Err(e);
        },
    };
    Ok(Parameter { name: key, val })
}

// ---------------------------------------------------------------------------
// Parameter lists
// ---------------------------------------------------------------------------
/// Fills the pre-reserved collection left to right from the chain.
fn convert_paramlist_fill(l: &TreeParamList, v: &mut Vec<Parameter>) -> (r: Result<
    (),
    ParseError,
>)
    ensures
        r is Ok <==> paramlist_text_ok(*l),
        r is Ok ==> final(v)@.len() == old(v)@.len() + l.spec_len() && final(v)@.take(
            old(v)@.len() as int,
        ) == old(v)@ && paramlist_match(*l, final(v)@.skip(old(v)@.len() as int)),
        r matches Err(e) ==> e == ParseError::StringNotUtf8 && !paramlist_text_ok(*l),
    decreases *l,
{
    match l {
        TreeParamList::Nil => {
            proof {
                assert(v@.take(old(v)@.len() as int) =~= old(v)@);
                assert(v@.skip(old(v)@.len() as int) =~= Seq::<Parameter>::empty());
            }
            Ok(())
        },
        TreeParamList::Cons(p, tail) => {
            let a = match convert_param(p) {
                Ok(a) => a,
                Err(e) => {
                    return Err(e);
                },
            };
            let ghost pre = v@;
            let ghost av = a;
            v.push(a);
            let ghost mid = v@;
            match convert_paramlist_fill(&**tail, v) {
                Ok(()) => {
                    proof {
                        let pl = pre.len() as int;
                        let ml = mid.len() as int;
                        assert(mid == pre.push(av));
                        assert forall|i: int| 0 <= i < pl implies v@[i] == pre[i] by {
                            assert(v@.take(ml)[i] == mid[i]);
                        }
                        assert(v@.take(pl) =~= pre);
                        assert(v@.skip(pl).skip(1) =~= v@.skip(ml));
                        assert(v@[pl] == mid[pl]) by {
                            assert(v@.take(ml)[pl] == mid[pl]);
                        }
                        assert(v@.skip(pl)[0] == av);
                    }
                    Ok(())
                },
                Err(e) => Err(e),
            }
        },
    }
}

/// Converts a parameter-list tag: an absent list is empty, a present one is
/// counted, reserved at exact size, and filled left to right.
fn convert_params(p: &TreeParams, g: &mut AllocGauge) -> (r: Result<Vec<Parameter>, ParseError>)
    ensures
        r is Ok <==> params_text_ok(*p) && old(g).allows(params_allocs(*p)),
        r matches Ok(v) ==> params_match(*p, v@) && *final(g) == old(g).grant(params_allocs(*p)),
        r matches Err(e) ==> abort_cause(
            true,
            params_text_ok(*p),
            *old(g),
            params_allocs(*p),
            e,
        ),
        params_text_ok(*p) && !old(g).allows(params_allocs(*p)) ==> (r matches Err(eo) && eo
            == oom_error(params_oom(*p, *old(g)))),
    decreases *p,
{
    match p {
        TreeParams::UnParameterized => Ok(Vec::new()),
        TreeParams::Parameterized(l) => {
            let sz = l.size();
            if !g.try_alloc() {
                return Err(ParseError::VecAllocationError);
            }
            let mut v: Vec<Parameter> = Vec::with_capacity(sz);
            match convert_paramlist_fill(l, &mut v) {
                Ok(()) => {
                    proof {
                        assert(v@.skip(0) =~= v@);
                    }
                    Ok(v)
                },
                Err(e) => Err(e),
            }
        },
    }
}

/// Converts a parameterized identifier: its text, then its parameters.
fn convert_paramid(p: &TreeParameterizedId, g: &mut AllocGauge) -> (r: Result<
    ParameterizedId,
    ParseError,
>)
    ensures
        r is Ok <==> paramid_text_ok(*p) && old(g).allows(paramid_allocs(*p)),
        r matches Ok(a) ==> paramid_matches(*p, a) && *final(g) == old(g).grant(
            paramid_allocs(*p),
        ),
        r matches Err(e) ==> abort_cause(
            true,
            paramid_text_ok(*p),
            *old(g),
            paramid_allocs(*p),
            e,
        ),
        paramid_text_ok(*p) && !old(g).allows(paramid_allocs(*p)) ==> (r matches Err(eo) && eo
            == oom_error(paramid_oom(*p, *old(g)))),
    decreases *p,
{
    let id = match convert_text(&p.id) {
        Ok(s) => s,
        Err(e) => {
            return Err(e);
        },
    };
    let params = match convert_params(&p.params, g) {
        Ok(v) => v,
        Err(e) => {
            return Err(e);
        },
    };
    Ok(ParameterizedId { id: Identifier(id), params })
}

/// Converts a namespace qualification.  A namespace computed from another
/// name's output is recognized but has no translation rule.
fn convert_qual(q: &TreeQualification, g: &mut AllocGauge) -> (r: Result<
    Option<NamespaceId>,
    ParseError,
>)
    ensures
        r is Ok <==> qual_supported(*q) && qual_text_ok(*q) && old(g).allows(qual_allocs(*q)),
        r matches Ok(a) ==> qual_matches(*q, a) && *final(g) == old(g).grant(qual_allocs(*q)),
        r matches Err(e) ==> abort_cause(
            qual_supported(*q),
            qual_text_ok(*q),
            *old(g),
            qual_allocs(*q),
            e,
        ),
        qual_supported(*q) && qual_text_ok(*q) && !old(g).allows(qual_allocs(*q)) ==> (
        r matches Err(eo) && eo == oom_error(qual_oom(*q, *old(g)))),
    decreases *q,
{
    match q {
        TreeQualification::Unqualified => Ok(None),
        TreeQualification::BuiltinNamespace(pid) => match convert_paramid(pid, g) {
            Ok(a) => Ok(Some(NamespaceId::Builtin(a))),
            Err(e) => Err(e),
        },
        TreeQualification::NamedNamespace(_, _) => Err(ParseError::NotSupported),
    }
}

// ---------------------------------------------------------------------------
// The adapter's two steps around the external compiler
// ---------------------------------------------------------------------------
/// Builds the terminated buffer the external compiler requires: the input's
/// own bytes, with one terminator appended.
///
/// The buffer cannot carry an interior NUL byte, so text whose byte form
/// holds one is rejected before the compiler is ever invoked.
pub fn prepare_input(input: &str) -> (r: Result<cstr_core::CString, ParseError>)
    ensures
        r is Ok <==> !input.spec_bytes().contains(0u8),
        r matches Ok(c) ==> cstring_bytes(c) == input.spec_bytes() + seq![0u8],
        r matches Err(e) ==> e == ParseError::NulInInput,
{
    match cstring_new(input) {
        Ok(c) => Ok(c),
        Err(e) => Err(ParseError::from(e)),
    }
}

/// Classifies the outcome of the external compiler's compile step and, when
/// a tree was produced, walks it into an owned [`Name`].
///
/// The tree handed in comes back as the second component of the result,
/// unchanged and exactly once, on success and on every failure alike: the
/// caller owes its release operation exactly one invocation per produced
/// tree, and none when compilation failed.
pub fn parse_compiled(compiled: Option<TreeName>, g: &mut AllocGauge) -> (r: (
    Result<Name, ParseError>,
    Option<TreeName>,
))
    ensures
        r.1 == compiled,
        compiled is None ==> (r.0 matches Err(e) && e == ParseError::BnfcParseError),
        compiled matches Some(t) ==> {
            &&& r.0 is Ok <==> name_supported(t) && name_text_ok(t) && old(g).allows(
                name_allocs(t),
            )
            &&& (r.0 matches Ok(n) ==> name_matches(t, n) && *final(g) == old(g).grant(
                name_allocs(t),
            ))
            &&& (r.0 matches Err(e) ==> abort_cause(
                name_supported(t),
                name_text_ok(t),
                *old(g),
                name_allocs(t),
                e,
            ))
            &&& (old(g).budget is None && name_text_ok(t) && !name_supported(t) ==> (
            r.0 matches Err(e2) && e2 == ParseError::NotSupported))
            &&& (name_supported(t) && name_text_ok(t) && !old(g).allows(name_allocs(t)) ==> (
            r.0 matches Err(e3) && e3 == oom_error(name_oom(t, *old(g)))))
        },
{
    match compiled {
        None => (Err(ParseError::BnfcParseError), None),
        Some(t) => {
            let res = convert_name(&t, g);
            (res, Some(t))
        },
    }
}

// ---------------------------------------------------------------------------
// The depth-first walk
// ---------------------------------------------------------------------------
/// Rebuilds a whole name: the declaration chain is counted, reserved at its
/// exact size and filled left to right, then the terminal substitution is
/// rebuilt.
pub fn convert_name(t: &TreeName, g: &mut AllocGauge) -> (r: Result<Name, ParseError>)
    ensures
        r is Ok <==> name_supported(*t) && name_text_ok(*t) && old(g).allows(name_allocs(*t)),
        r matches Ok(n) ==> name_matches(*t, n) && *final(g) == old(g).grant(name_allocs(*t)),
        r matches Err(e) ==> abort_cause(
            name_supported(*t),
            name_text_ok(*t),
            *old(g),
            name_allocs(*t),
            e,
        ),
        name_supported(*t) && name_text_ok(*t) && !old(g).allows(name_allocs(*t)) ==> (
        r matches Err(eo) && eo == oom_error(name_oom(*t, *old(g)))),
    decreases *t,
{
    let sz = t.declarations.size();
    proof {
        old(g).lemma_grant_split(
            1,
            decls_fill_allocs(t.declarations) + subst_allocs(t.terminal),
        );
        old(g).grant(1).lemma_grant_split(
            decls_fill_allocs(t.declarations),
            subst_allocs(t.terminal),
        );
    }
    if !g.try_alloc() {
        return Err(ParseError::VecAllocationError);
    }
    let mut decls: Vec<Box<Declaration>> = Vec::with_capacity(sz);
    match convert_decls_fill(&t.declarations, &mut decls, g) {
        Ok(()) => {},
        Err(e) => {
            return Err(e);
        },
    }
    let term = match convert_subst(&t.terminal, g) {
        Ok(s) => s,
        Err(e) => {
            return Err(e);
        },
    };
    proof {
        assert(decls@.skip(0) =~= decls@);
    }
    Ok(Name { let_declarations: decls, terminal_substitution: term })
}

/// Fills the pre-reserved declaration collection left to right: each chain
/// entry is rebuilt, then moved into one freshly allocated owned node.
fn convert_decls_fill(
    l: &TreeDeclarations,
    v: &mut Vec<Box<Declaration>>,
    g: &mut AllocGauge,
) -> (r: Result<(), ParseError>)
    ensures
        r is Ok <==> decls_supported(*l) && decls_text_ok(*l) && old(g).allows(
            decls_fill_allocs(*l),
        ),
        r is Ok ==> final(v)@.len() == old(v)@.len() + l.spec_len() && final(v)@.take(
            old(v)@.len() as int,
        ) == old(v)@ && decls_match(*l, final(v)@.skip(old(v)@.len() as int)) && *final(g) == old(
            g,
        ).grant(decls_fill_allocs(*l)),
        r matches Err(e) ==> abort_cause(
            decls_supported(*l),
            decls_text_ok(*l),
            *old(g),
            decls_fill_allocs(*l),
            e,
        ),
        decls_supported(*l) && decls_text_ok(*l) && !old(g).allows(decls_fill_allocs(*l)) ==> (
        r matches Err(eo) && eo == oom_error(decls_fill_oom(*l, *old(g)))),
    decreases *l,
{
    match l {
        TreeDeclarations::Nil => {
            proof {
                assert(v@.take(old(v)@.len() as int) =~= old(v)@);
                assert(v@.skip(old(v)@.len() as int) =~= Seq::<Box<Declaration>>::empty());
            }
            Ok(())
        },
        TreeDeclarations::Cons(d, tail) => {
            proof {
                old(g).lemma_grant_split(decl_allocs(*d), 1 + decls_fill_allocs(**tail));
                old(g).grant(decl_allocs(*d)).lemma_grant_split(1, decls_fill_allocs(**tail));
            }
            let a = match convert_decl(d, g) {
                Ok(a) => a,
                Err(e) => {
                    return Err(e);
                },
            };
            if !g.try_alloc() {
                return Err(ParseError::BoxAllocationError);
            }
            let ghost av = a;
            let b = Box::new(a);
            let ghost bv = b;
            let ghost pre = v@;
            v.push(b);
            let ghost mid = v@;
            match convert_decls_fill(&**tail, v, g) {
                Ok(()) => {
                    proof {
                        let pl = pre.len() as int;
                        let ml = mid.len() as int;
                        assert(mid == pre.push(bv));
                        assert forall|i: int| 0 <= i < pl implies v@[i] == pre[i] by {
                            assert(v@.take(ml)[i] == mid[i]);
                        }
                        assert(v@.take(pl) =~= pre);
                        assert(v@.skip(pl).skip(1) =~= v@.skip(ml));
                        assert(v@[pl] == mid[pl]) by {
                            assert(v@.take(ml)[pl] == mid[pl]);
                        }
                        assert(v@.skip(pl)[0] == bv);
                        assert(decl_matches(*d, *v@.skip(pl)[0]));
                    }
                    Ok(())
                },
                Err(e) => Err(e),
            }
        },
    }
}

/// Rebuilds one declaration: its binding, then its substitution.
fn convert_decl(d: &TreeDeclaration, g: &mut AllocGauge) -> (r: Result<Declaration, ParseError>)
    ensures
        r is Ok <==> decl_supported(*d) && decl_text_ok(*d) && old(g).allows(decl_allocs(*d)),
        r matches Ok(a) ==> decl_matches(*d, a) && *final(g) == old(g).grant(decl_allocs(*d)),
        r matches Err(e) ==> abort_cause(
            decl_supported(*d),
            decl_text_ok(*d),
            *old(g),
            decl_allocs(*d),
            e,
        ),
        decl_supported(*d) && decl_text_ok(*d) && !old(g).allows(decl_allocs(*d)) ==> (
        r matches Err(eo) && eo == oom_error(decl_oom(*d, *old(g)))),
    decreases *d,
{
    let var = match convert_binding(&d.binding) {
        Ok(v) => v,
        Err(e) => {
            return Err(e);
        },
    };
    let val = match convert_subst(&d.value, g) {
        Ok(s) => s,
        Err(e) => {
            return Err(e);
        },
    };
    Ok(Declaration { var, val })
}

/// Rebuilds one substitution: its target reference, then its inputs.
fn convert_subst(s: &TreeSubstitution, g: &mut AllocGauge) -> (r: Result<
    Substitution,
    ParseError,
>)
    ensures
        r is Ok <==> subst_supported(*s) && subst_text_ok(*s) && old(g).allows(subst_allocs(*s)),
        r matches Ok(a) ==> subst_matches(*s, a) && *final(g) == old(g).grant(subst_allocs(*s)),
        r matches Err(e) ==> abort_cause(
            subst_supported(*s),
            subst_text_ok(*s),
            *old(g),
            subst_allocs(*s),
            e,
        ),
        subst_supported(*s) && subst_text_ok(*s) && !old(g).allows(subst_allocs(*s)) ==> (
        r matches Err(eo) && eo == oom_error(subst_oom(*s, *old(g)))),
    decreases *s,
{
    proof {
        old(g).lemma_grant_split(nameref_allocs(s.target), inputs_allocs(s.inputs));
    }
    let target = match convert_nameref(&s.target, g) {
        Ok(t) => t,
        Err(e) => {
            return Err(e);
        },
    };
    let inputs = match convert_inputs(&s.inputs, g) {
        Ok(v) => v,
        Err(e) => {
            return Err(e);
        },
    };
    Ok(Substitution { name: target, inputs })
}

/// Rebuilds a target reference, matching its kind tag exhaustively.
fn convert_nameref(r: &TreeNameRef, g: &mut AllocGauge) -> (res: Result<NameRef, ParseError>)
    ensures
        res is Ok <==> nameref_supported(*r) && nameref_text_ok(*r) && old(g).allows(
            nameref_allocs(*r),
        ),
        res matches Ok(a) ==> nameref_matches(*r, a) && *final(g) == old(g).grant(
            nameref_allocs(*r),
        ),
        res matches Err(e) ==> abort_cause(
            nameref_supported(*r),
            nameref_text_ok(*r),
            *old(g),
            nameref_allocs(*r),
            e,
        ),
        nameref_supported(*r) && nameref_text_ok(*r) && !old(g).allows(nameref_allocs(*r)) ==> (
        res matches Err(eo) && eo == oom_error(nameref_oom(*r, *old(g)))),
    decreases *r,
{
    match r {
        TreeNameRef::AtomicRef(q, pid) => {
            proof {
                old(g).lemma_grant_split(qual_allocs(*q), paramid_allocs(*pid));
            }
            let ns = match convert_qual(q, g) {
                Ok(a) => a,
                Err(e) => {
                    return Err(e);
                },
            };
            let nid = match convert_paramid(pid, g) {
                Ok(a) => a,
                Err(e) => {
                    return Err(e);
                },
            };
            Ok(NameRef::Atomic { namespace_id: ns, name_id: nid })
        },
        TreeNameRef::Variable(bytes) => match convert_text(bytes) {
            Ok(s) => Ok(NameRef::Variable(Identifier(s))),
            Err(e) => Err(e),
        },
        TreeNameRef::Resolved(bytes) => match convert_text(bytes) {
            Ok(s) => Ok(NameRef::Resolved(Identifier(s))),
            Err(e) => Err(e),
        },
        TreeNameRef::NestedNameRef(n) => {
            proof {
                old(g).lemma_grant_split(name_allocs(**n), 1);
            }
            let nm = match convert_name(&**n, g) {
                Ok(m) => m,
                Err(e) => {
                    return Err(e);
                },
            };
            if !g.try_alloc() {
                return Err(ParseError::BoxAllocationError);
            }
            Ok(NameRef::Nested(Box::new(nm)))
        },
    }
}

/// Rebuilds an input list.  A non-default output-selector index is
/// recognized but has no translation rule; a present list is counted,
/// reserved at its exact size and filled left to right.
fn convert_inputs(i: &TreeInputs, g: &mut AllocGauge) -> (r: Result<
    Vec<SubstitutionSpec>,
    ParseError,
>)
    ensures
        r is Ok <==> inputs_supported(*i) && inputs_text_ok(*i) && old(g).allows(
            inputs_allocs(*i),
        ),
        r matches Ok(v) ==> inputs_match(*i, v@) && *final(g) == old(g).grant(inputs_allocs(*i)),
        r matches Err(e) ==> abort_cause(
            inputs_supported(*i),
            inputs_text_ok(*i),
            *old(g),
            inputs_allocs(*i),
            e,
        ),
        inputs_supported(*i) && inputs_text_ok(*i) && !old(g).allows(inputs_allocs(*i)) ==> (
        r matches Err(eo) && eo == oom_error(inputs_oom(*i, *old(g)))),
    decreases *i,
{
    match i {
        TreeInputs::Nullary => Ok(Vec::new()),
        TreeInputs::Multiary(idx, specs) => match idx {
            TreeGraphIndex::Selected(_) => Err(ParseError::NotSupported),
            TreeGraphIndex::DefaultIndex => {
                let sz = specs.size();
                proof {
                    old(g).lemma_grant_split(1, specs_fill_allocs(*specs));
                }
                if !g.try_alloc() {
                    return Err(ParseError::VecAllocationError);
                }
                let mut v: Vec<SubstitutionSpec> = Vec::with_capacity(sz);
                match convert_specs_fill(specs, &mut v, g) {
                    Ok(()) => {
                        proof {
                            assert(v@.skip(0) =~= v@);
                        }
                        Ok(v)
                    },
                    Err(e) => Err(e),
                }
            },
        },
    }
}

/// Fills the pre-reserved input collection left to right from the chain.
fn convert_specs_fill(
    l: &TreeInputSpecs,
    v: &mut Vec<SubstitutionSpec>,
    g: &mut AllocGauge,
) -> (r: Result<(), ParseError>)
    ensures
        r is Ok <==> specs_supported(*l) && specs_text_ok(*l) && old(g).allows(
            specs_fill_allocs(*l),
        ),
        r is Ok ==> final(v)@.len() == old(v)@.len() + l.spec_len() && final(v)@.take(
            old(v)@.len() as int,
        ) == old(v)@ && specs_match(*l, final(v)@.skip(old(v)@.len() as int)) && *final(g) == old(
            g,
        ).grant(specs_fill_allocs(*l)),
        r matches Err(e) ==> abort_cause(
            specs_supported(*l),
            specs_text_ok(*l),
            *old(g),
            specs_fill_allocs(*l),
            e,
        ),
        specs_supported(*l) && specs_text_ok(*l) && !old(g).allows(specs_fill_allocs(*l)) ==> (
        r matches Err(eo) && eo == oom_error(specs_fill_oom(*l, *old(g)))),
    decreases *l,
{
    match l {
        TreeInputSpecs::Nil => {
            proof {
                assert(v@.take(old(v)@.len() as int) =~= old(v)@);
                assert(v@.skip(old(v)@.len() as int) =~= Seq::<SubstitutionSpec>::empty());
            }
            Ok(())
        },
        TreeInputSpecs::Cons(s, tail) => {
            proof {
                old(g).lemma_grant_split(input_spec_allocs(*s), specs_fill_allocs(**tail));
            }
            let a = match convert_input_spec(s, g) {
                Ok(a) => a,
                Err(e) => {
                    return Err(e);
                },
            };
            let ghost av = a;
            let ghost pre = v@;
            v.push(a);
            let ghost mid = v@;
            match convert_specs_fill(&**tail, v, g) {
                Ok(()) => {
                    proof {
                        let pl = pre.len() as int;
                        let ml = mid.len() as int;
                        assert(mid == pre.push(av));
                        assert forall|i: int| 0 <= i < pl implies v@[i] == pre[i] by {
                            assert(v@.take(ml)[i] == mid[i]);
                        }
                        assert(v@.take(pl) =~= pre);
                        assert(v@.skip(pl).skip(1) =~= v@.skip(ml));
                        assert(v@[pl] == mid[pl]) by {
                            assert(v@.take(ml)[pl] == mid[pl]);
                        }
                        assert(v@.skip(pl)[0] == av);
                    }
                    Ok(())
                },
                Err(e) => Err(e),
            }
        },
    }
}

/// Rebuilds one input specification: its label, the substitution whose
/// output it supplies (moved into one freshly allocated owned node), and
/// its output selection.
fn convert_input_spec(s: &TreeInputSpec, g: &mut AllocGauge) -> (r: Result<
    SubstitutionSpec,
    ParseError,
>)
    ensures
        r is Ok <==> input_spec_supported(*s) && input_spec_text_ok(*s) && old(g).allows(
            input_spec_allocs(*s),
        ),
        r matches Ok(a) ==> input_spec_matches(*s, a) && *final(g) == old(g).grant(
            input_spec_allocs(*s),
        ),
        r matches Err(e) ==> abort_cause(
            input_spec_supported(*s),
            input_spec_text_ok(*s),
            *old(g),
            input_spec_allocs(*s),
            e,
        ),
        input_spec_supported(*s) && input_spec_text_ok(*s) && !old(g).allows(
            input_spec_allocs(*s),
        ) ==> (r matches Err(eo) && eo == oom_error(input_spec_oom(*s, *old(g)))),
    decreases *s,
{
    proof {
        old(g).lemma_grant_split(subst_allocs(*s.value), 1);
    }
    let label = match convert_label(&s.label) {
        Ok(v) => v,
        Err(e) => {
            return Err(e);
        },
    };
    let valsub = match convert_subst(&*s.value, g) {
        Ok(x) => x,
        Err(e) => {
            return Err(e);
        },
    };
    if !g.try_alloc() {
        return Err(ParseError::BoxAllocationError);
    }
    let outid = match convert_outsel(&s.output) {
        Ok(v) => v,
        Err(e) => {
            return Err(e);
        },
    };
    Ok(
        SubstitutionSpec {
            input_id: label,
            input_val: OutputRef { name: Box::new(valsub), output_id: outid },
        },
    )
}

} // verus!
