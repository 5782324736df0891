//! The meaning of the tree walk, stated as mathematics.
//!
//! Five families of spec functions describe the rebuild of a parse tree into
//! an owned [`crate::name::Name`], one clause per node view.  Declaration,
//! input-specification and parameter chains all have translation rules and
//! are rebuilt; exactly two recognized forms have none and abort the walk:
//!
//! * `*_supported` — the tree uses only constructs that have a translation
//!   rule.  A namespace computed from another name's output and a
//!   non-default output-selector index are recognized but not translated.
//! * `*_text_ok` — every text payload that the walk would read is valid
//!   UTF-8.
//! * `*_allocs` — how many allocation requests the walk makes: one per
//!   chain reservation and one per owned node, in walk order, so that an
//!   allocation budget determines the outcome exactly.
//! * `*_oom` — which of the two out-of-memory errors an under-budget walk
//!   reports: the kind (chain reservation or owned node) of the first
//!   request, in walk order, that the gauge refuses.
//! * `*_matches` — the built node is the translation of the tree node.
//!   For a given tree these clauses pin the result down uniquely.
//!
//! The `*_seq` functions and the order lemmas restate chain matching
//! position by position: element `i` of a built collection is the
//! translation of sibling `i` of the chain, so source order is preserved.

use vstd::prelude::*;
use vstd::utf8::decode_utf8;
use vstd::utf8::valid_utf8;

use crate::gauge::AllocGauge;
use crate::name::Declaration;
use crate::name::Identifier;
use crate::name::Name;
use crate::name::NameRef;
use crate::name::NamespaceId;
use crate::name::Parameter;
use crate::name::ParameterizedId;
use crate::name::Substitution;
use crate::name::SubstitutionSpec;
use crate::tree::TreeBinding;
use crate::tree::TreeDeclaration;
use crate::tree::TreeDeclarations;
use crate::tree::TreeInputLabel;
use crate::tree::TreeInputSpec;
use crate::tree::TreeInputSpecs;
use crate::tree::TreeInputs;
use crate::tree::TreeName;
use crate::tree::TreeNameRef;
use crate::tree::TreeParam;
use crate::tree::TreeParamList;
use crate::tree::TreeParameterizedId;
use crate::tree::TreeOutputSelector;
use crate::tree::TreeParams;
use crate::tree::TreeQualification;
use crate::tree::TreeSubstitution;

verus! {

/// The byte payload decodes to exactly this text.
pub open spec fn text_matches(b: Seq<u8>, s: Seq<char>) -> bool {
    valid_utf8(b) && s == decode_utf8(b)
}

// ---------------------------------------------------------------------------
// Supported constructs
// ---------------------------------------------------------------------------
pub open spec fn name_supported(t: TreeName) -> bool
    decreases t,
{
    decls_supported(t.declarations) && subst_supported(t.terminal)
}

pub open spec fn decls_supported(l: TreeDeclarations) -> bool
    decreases l,
{
    match l {
        TreeDeclarations::Nil => true,
        TreeDeclarations::Cons(d, tail) => decl_supported(d) && decls_supported(*tail),
    }
}

pub open spec fn decl_supported(d: TreeDeclaration) -> bool
    decreases d,
{
    subst_supported(d.value)
}

pub open spec fn subst_supported(s: TreeSubstitution) -> bool
    decreases s,
{
    nameref_supported(s.target) && inputs_supported(s.inputs)
}

pub open spec fn nameref_supported(r: TreeNameRef) -> bool
    decreases r,
{
    match r {
        TreeNameRef::AtomicRef(q, _) => qual_supported(q),
        TreeNameRef::Variable(_) => true,
        TreeNameRef::Resolved(_) => true,
        TreeNameRef::NestedNameRef(n) => name_supported(*n),
    }
}

/// A namespace computed from another name's output has no translation rule.
pub open spec fn qual_supported(q: TreeQualification) -> bool {
    match q {
        TreeQualification::Unqualified => true,
        TreeQualification::BuiltinNamespace(_) => true,
        TreeQualification::NamedNamespace(_, _) => false,
    }
}

pub open spec fn inputs_supported(i: TreeInputs) -> bool
    decreases i,
{
    match i {
        TreeInputs::Nullary => true,
        TreeInputs::Multiary(idx, specs) => idx is DefaultIndex && specs_supported(specs),
    }
}

pub open spec fn specs_supported(l: TreeInputSpecs) -> bool
    decreases l,
{
    match l {
        TreeInputSpecs::Nil => true,
        TreeInputSpecs::Cons(s, tail) => input_spec_supported(s) && specs_supported(*tail),
    }
}

pub open spec fn input_spec_supported(s: TreeInputSpec) -> bool
    decreases s,
{
    subst_supported(*s.value)
}

// ---------------------------------------------------------------------------
// Text payloads read by the walk are valid UTF-8
// ---------------------------------------------------------------------------
pub open spec fn name_text_ok(t: TreeName) -> bool
    decreases t,
{
    decls_text_ok(t.declarations) && subst_text_ok(t.terminal)
}

pub open spec fn decls_text_ok(l: TreeDeclarations) -> bool
    decreases l,
{
    match l {
        TreeDeclarations::Nil => true,
        TreeDeclarations::Cons(d, tail) => decl_text_ok(d) && decls_text_ok(*tail),
    }
}

pub open spec fn decl_text_ok(d: TreeDeclaration) -> bool
    decreases d,
{
    binding_text_ok(d.binding) && subst_text_ok(d.value)
}

pub open spec fn binding_text_ok(b: TreeBinding) -> bool {
    match b {
        TreeBinding::Unbound => true,
        TreeBinding::Bound(v) => valid_utf8(v@),
    }
}

pub open spec fn subst_text_ok(s: TreeSubstitution) -> bool
    decreases s,
{
    nameref_text_ok(s.target) && inputs_text_ok(s.inputs)
}

pub open spec fn nameref_text_ok(r: TreeNameRef) -> bool
    decreases r,
{
    match r {
        TreeNameRef::AtomicRef(q, pid) => qual_text_ok(q) && paramid_text_ok(pid),
        TreeNameRef::Variable(v) => valid_utf8(v@),
        TreeNameRef::Resolved(v) => valid_utf8(v@),
        TreeNameRef::NestedNameRef(n) => name_text_ok(*n),
    }
}

/// Text under an unsupported qualification is never read by the walk.
pub open spec fn qual_text_ok(q: TreeQualification) -> bool
    decreases q,
{
    match q {
        TreeQualification::Unqualified => true,
        TreeQualification::BuiltinNamespace(pid) => paramid_text_ok(pid),
        TreeQualification::NamedNamespace(_, _) => true,
    }
}

pub open spec fn paramid_text_ok(p: TreeParameterizedId) -> bool
    decreases p,
{
    valid_utf8(p.id@) && params_text_ok(p.params)
}

pub open spec fn params_text_ok(p: TreeParams) -> bool
    decreases p,
{
    match p {
        TreeParams::UnParameterized => true,
        TreeParams::Parameterized(l) => paramlist_text_ok(l),
    }
}

pub open spec fn paramlist_text_ok(l: TreeParamList) -> bool
    decreases l,
{
    match l {
        TreeParamList::Nil => true,
        TreeParamList::Cons(p, tail) => param_text_ok(p) && paramlist_text_ok(*tail),
    }
}

pub open spec fn param_text_ok(p: TreeParam) -> bool {
    valid_utf8(p.key@) && valid_utf8(p.val@)
}

/// Text under a non-default selector index is never read by the walk.
pub open spec fn inputs_text_ok(i: TreeInputs) -> bool
    decreases i,
{
    match i {
        TreeInputs::Nullary => true,
        TreeInputs::Multiary(idx, specs) => idx is DefaultIndex ==> specs_text_ok(specs),
    }
}

pub open spec fn specs_text_ok(l: TreeInputSpecs) -> bool
    decreases l,
{
    match l {
        TreeInputSpecs::Nil => true,
        TreeInputSpecs::Cons(s, tail) => input_spec_text_ok(s) && specs_text_ok(*tail),
    }
}

pub open spec fn input_spec_text_ok(s: TreeInputSpec) -> bool
    decreases s,
{
    label_text_ok(s.label) && subst_text_ok(*s.value) && outsel_text_ok(s.output)
}

pub open spec fn label_text_ok(l: TreeInputLabel) -> bool {
    match l {
        TreeInputLabel::Unlabeled => true,
        TreeInputLabel::Labeled(v) => valid_utf8(v@),
    }
}

pub open spec fn outsel_text_ok(o: TreeOutputSelector) -> bool {
    match o {
        TreeOutputSelector::DefaultOutput => true,
        TreeOutputSelector::NamedOutput(v) => valid_utf8(v@),
    }
}

// ---------------------------------------------------------------------------
// Allocation requests made by the walk
// ---------------------------------------------------------------------------
pub open spec fn name_allocs(t: TreeName) -> nat
    decreases t,
{
    1 + decls_fill_allocs(t.declarations) + subst_allocs(t.terminal)
}

/// One owned-node allocation per declaration, after its conversion.
pub open spec fn decls_fill_allocs(l: TreeDeclarations) -> nat
    decreases l,
{
    match l {
        TreeDeclarations::Nil => 0,
        TreeDeclarations::Cons(d, tail) => decl_allocs(d) + 1 + decls_fill_allocs(*tail),
    }
}

pub open spec fn decl_allocs(d: TreeDeclaration) -> nat
    decreases d,
{
    subst_allocs(d.value)
}

pub open spec fn subst_allocs(s: TreeSubstitution) -> nat
    decreases s,
{
    nameref_allocs(s.target) + inputs_allocs(s.inputs)
}

pub open spec fn nameref_allocs(r: TreeNameRef) -> nat
    decreases r,
{
    match r {
        TreeNameRef::AtomicRef(q, pid) => qual_allocs(q) + paramid_allocs(pid),
        TreeNameRef::Variable(_) => 0,
        TreeNameRef::Resolved(_) => 0,
        TreeNameRef::NestedNameRef(n) => name_allocs(*n) + 1,
    }
}

pub open spec fn qual_allocs(q: TreeQualification) -> nat
    decreases q,
{
    match q {
        TreeQualification::Unqualified => 0,
        TreeQualification::BuiltinNamespace(pid) => paramid_allocs(pid),
        TreeQualification::NamedNamespace(_, _) => 0,
    }
}

pub open spec fn paramid_allocs(p: TreeParameterizedId) -> nat
    decreases p,
{
    params_allocs(p.params)
}

/// A present parameter list costs its one reservation; its entries are plain
/// values whose text buffers are not drawn from the gauge.
pub open spec fn params_allocs(p: TreeParams) -> nat {
    match p {
        TreeParams::UnParameterized => 0,
        TreeParams::Parameterized(_) => 1,
    }
}

pub open spec fn inputs_allocs(i: TreeInputs) -> nat
    decreases i,
{
    match i {
        TreeInputs::Nullary => 0,
        TreeInputs::Multiary(idx, specs) => if idx is DefaultIndex {
            1 + specs_fill_allocs(specs)
        } else {
            0
        },
    }
}

pub open spec fn specs_fill_allocs(l: TreeInputSpecs) -> nat
    decreases l,
{
    match l {
        TreeInputSpecs::Nil => 0,
        TreeInputSpecs::Cons(s, tail) => input_spec_allocs(s) + specs_fill_allocs(*tail),
    }
}

/// The supplied substitution, then the owned node that holds it.
pub open spec fn input_spec_allocs(s: TreeInputSpec) -> nat
    decreases s,
{
    subst_allocs(*s.value) + 1
}

// ---------------------------------------------------------------------------
// Which request an under-budget walk is refused
// ---------------------------------------------------------------------------
/// The two kinds of allocation request the walk makes.
pub enum AllocKind {
    /// A collection reservation for a counted chain.
    Reservation,
    /// A single owned-node allocation.
    Node,
}

/// The kind of the first request the gauge refuses, in walk order, when the
/// walk of this name is not granted all of [`name_allocs`].  Meaningful only
/// then; node views that make no request return an arbitrary kind, since no
/// refusal can happen inside them.
pub open spec fn name_oom(t: TreeName, g: AllocGauge) -> AllocKind
    decreases t,
{
    if !g.allows(1) {
        AllocKind::Reservation
    } else if !g.grant(1).allows(decls_fill_allocs(t.declarations)) {
        decls_fill_oom(t.declarations, g.grant(1))
    } else {
        subst_oom(t.terminal, g.grant(1).grant(decls_fill_allocs(t.declarations)))
    }
}

pub open spec fn decls_fill_oom(l: TreeDeclarations, g: AllocGauge) -> AllocKind
    decreases l,
{
    match l {
        TreeDeclarations::Nil => AllocKind::Reservation,
        TreeDeclarations::Cons(d, tail) => if !g.allows(decl_allocs(d)) {
            decl_oom(d, g)
        } else if !g.grant(decl_allocs(d)).allows(1) {
            AllocKind::Node
        } else {
            decls_fill_oom(*tail, g.grant(decl_allocs(d)).grant(1))
        },
    }
}

pub open spec fn decl_oom(d: TreeDeclaration, g: AllocGauge) -> AllocKind
    decreases d,
{
    subst_oom(d.value, g)
}

pub open spec fn subst_oom(s: TreeSubstitution, g: AllocGauge) -> AllocKind
    decreases s,
{
    if !g.allows(nameref_allocs(s.target)) {
        nameref_oom(s.target, g)
    } else {
        inputs_oom(s.inputs, g.grant(nameref_allocs(s.target)))
    }
}

pub open spec fn nameref_oom(r: TreeNameRef, g: AllocGauge) -> AllocKind
    decreases r,
{
    match r {
        TreeNameRef::AtomicRef(q, pid) => if !g.allows(qual_allocs(q)) {
            qual_oom(q, g)
        } else {
            paramid_oom(pid, g.grant(qual_allocs(q)))
        },
        TreeNameRef::Variable(_) => AllocKind::Reservation,
        TreeNameRef::Resolved(_) => AllocKind::Reservation,
        TreeNameRef::NestedNameRef(n) => if !g.allows(name_allocs(*n)) {
            name_oom(*n, g)
        } else {
            AllocKind::Node
        },
    }
}

pub open spec fn qual_oom(q: TreeQualification, g: AllocGauge) -> AllocKind
    decreases q,
{
    match q {
        TreeQualification::Unqualified => AllocKind::Reservation,
        TreeQualification::BuiltinNamespace(pid) => paramid_oom(pid, g),
        TreeQualification::NamedNamespace(_, _) => AllocKind::Reservation,
    }
}

pub open spec fn paramid_oom(p: TreeParameterizedId, g: AllocGauge) -> AllocKind
    decreases p,
{
    params_oom(p.params, g)
}

/// The only request a parameter list makes is its reservation.
pub open spec fn params_oom(p: TreeParams, g: AllocGauge) -> AllocKind {
    AllocKind::Reservation
}

pub open spec fn inputs_oom(i: TreeInputs, g: AllocGauge) -> AllocKind
    decreases i,
{
    match i {
        TreeInputs::Nullary => AllocKind::Reservation,
        TreeInputs::Multiary(idx, specs) => if idx is DefaultIndex {
            if !g.allows(1) {
                AllocKind::Reservation
            } else {
                specs_fill_oom(specs, g.grant(1))
            }
        } else {
            AllocKind::Reservation
        },
    }
}

pub open spec fn specs_fill_oom(l: TreeInputSpecs, g: AllocGauge) -> AllocKind
    decreases l,
{
    match l {
        TreeInputSpecs::Nil => AllocKind::Reservation,
        TreeInputSpecs::Cons(s, tail) => if !g.allows(input_spec_allocs(s)) {
            input_spec_oom(s, g)
        } else {
            specs_fill_oom(*tail, g.grant(input_spec_allocs(s)))
        },
    }
}

pub open spec fn input_spec_oom(s: TreeInputSpec, g: AllocGauge) -> AllocKind
    decreases s,
{
    if !g.allows(subst_allocs(*s.value)) {
        subst_oom(*s.value, g)
    } else {
        AllocKind::Node
    }
}

// ---------------------------------------------------------------------------
// The built node is the translation of the tree node
// ---------------------------------------------------------------------------
pub open spec fn name_matches(t: TreeName, n: Name) -> bool
    decreases t,
{
    decls_match(t.declarations, n.let_declarations@) && subst_matches(
        t.terminal,
        n.terminal_substitution,
    )
}

pub open spec fn decls_match(l: TreeDeclarations, s: Seq<Box<Declaration>>) -> bool
    decreases l,
{
    match l {
        TreeDeclarations::Nil => s.len() == 0,
        TreeDeclarations::Cons(d, tail) => s.len() >= 1 && decl_matches(d, *s[0]) && decls_match(
            *tail,
            s.skip(1),
        ),
    }
}

pub open spec fn decl_matches(d: TreeDeclaration, a: Declaration) -> bool
    decreases d,
{
    binding_matches(d.binding, a.var) && subst_matches(d.value, a.val)
}

pub open spec fn binding_matches(b: TreeBinding, v: Option<Identifier>) -> bool {
    match b {
        TreeBinding::Unbound => v is None,
        TreeBinding::Bound(bytes) => v matches Some(id) && text_matches(bytes@, id.0@),
    }
}

pub open spec fn subst_matches(s: TreeSubstitution, a: Substitution) -> bool
    decreases s,
{
    nameref_matches(s.target, a.name) && inputs_match(s.inputs, a.inputs@)
}

pub open spec fn nameref_matches(r: TreeNameRef, a: NameRef) -> bool
    decreases r,
{
    match r {
        TreeNameRef::AtomicRef(q, pid) => {
            &&& a matches NameRef::Atomic { namespace_id, name_id }
            &&& qual_matches(q, namespace_id)
            &&& paramid_matches(pid, name_id)
        },
        TreeNameRef::Variable(bytes) => a matches NameRef::Variable(id) && text_matches(
            bytes@,
            id.0@,
        ),
        TreeNameRef::Resolved(bytes) => a matches NameRef::Resolved(id) && text_matches(
            bytes@,
            id.0@,
        ),
        TreeNameRef::NestedNameRef(n) => a matches NameRef::Nested(m) && name_matches(*n, *m),
    }
}

pub open spec fn qual_matches(q: TreeQualification, a: Option<NamespaceId>) -> bool
    decreases q,
{
    match q {
        TreeQualification::Unqualified => a is None,
        TreeQualification::BuiltinNamespace(pid) => a matches Some(NamespaceId::Builtin(p))
            && paramid_matches(pid, p),
        TreeQualification::NamedNamespace(_, _) => false,
    }
}

pub open spec fn paramid_matches(t: TreeParameterizedId, a: ParameterizedId) -> bool
    decreases t,
{
    text_matches(t.id@, a.id.0@) && params_match(t.params, a.params@)
}

pub open spec fn params_match(t: TreeParams, s: Seq<Parameter>) -> bool
    decreases t,
{
    match t {
        TreeParams::UnParameterized => s.len() == 0,
        TreeParams::Parameterized(l) => paramlist_match(l, s),
    }
}

pub open spec fn paramlist_match(l: TreeParamList, s: Seq<Parameter>) -> bool
    decreases l,
{
    match l {
        TreeParamList::Nil => s.len() == 0,
        TreeParamList::Cons(p, tail) => s.len() >= 1 && param_matches(p, s[0]) && paramlist_match(
            *tail,
            s.skip(1),
        ),
    }
}

pub open spec fn param_matches(t: TreeParam, a: Parameter) -> bool {
    text_matches(t.key@, a.name@) && text_matches(t.val@, a.val@)
}

pub open spec fn inputs_match(t: TreeInputs, s: Seq<SubstitutionSpec>) -> bool
    decreases t,
{
    match t {
        TreeInputs::Nullary => s.len() == 0,
        TreeInputs::Multiary(idx, specs) => idx is DefaultIndex && specs_match(specs, s),
    }
}

pub open spec fn specs_match(l: TreeInputSpecs, s: Seq<SubstitutionSpec>) -> bool
    decreases l,
{
    match l {
        TreeInputSpecs::Nil => s.len() == 0,
        TreeInputSpecs::Cons(h, tail) => s.len() >= 1 && input_spec_matches(h, s[0]) && specs_match(
            *tail,
            s.skip(1),
        ),
    }
}

pub open spec fn input_spec_matches(t: TreeInputSpec, a: SubstitutionSpec) -> bool
    decreases t,
{
    &&& label_matches(t.label, a.input_id)
    &&& subst_matches(*t.value, *a.input_val.name)
    &&& outsel_matches(t.output, a.input_val.output_id)
}

pub open spec fn label_matches(l: TreeInputLabel, v: Option<Identifier>) -> bool {
    match l {
        TreeInputLabel::Unlabeled => v is None,
        TreeInputLabel::Labeled(bytes) => v matches Some(id) && text_matches(bytes@, id.0@),
    }
}

pub open spec fn outsel_matches(o: TreeOutputSelector, v: Option<Identifier>) -> bool {
    match o {
        TreeOutputSelector::DefaultOutput => v is None,
        TreeOutputSelector::NamedOutput(bytes) => v matches Some(id) && text_matches(
            bytes@,
            id.0@,
        ),
    }
}

// ---------------------------------------------------------------------------
// Source order, position by position
// ---------------------------------------------------------------------------
/// The declaration chain read off as a sequence, left to right.
pub open spec fn decls_seq(l: TreeDeclarations) -> Seq<TreeDeclaration>
    decreases l,
{
    match l {
        TreeDeclarations::Nil => Seq::empty(),
        TreeDeclarations::Cons(d, tail) => seq![d] + decls_seq(*tail),
    }
}

/// The input-specification chain read off as a sequence, left to right.
pub open spec fn specs_seq(l: TreeInputSpecs) -> Seq<TreeInputSpec>
    decreases l,
{
    match l {
        TreeInputSpecs::Nil => Seq::empty(),
        TreeInputSpecs::Cons(s, tail) => seq![s] + specs_seq(*tail),
    }
}

/// Source order of declarations is preserved: a built collection that
/// matches a declaration chain has exactly one element per sibling, and its
/// element `i` is the translation of the chain's sibling `i`.
pub proof fn lemma_decls_order(l: TreeDeclarations, s: Seq<Box<Declaration>>)
    requires
        decls_match(l, s),
    ensures
        s.len() == l.spec_len(),
        decls_seq(l).len() == l.spec_len(),
        forall|i: int| 0 <= i < s.len() ==> decl_matches(#[trigger] decls_seq(l)[i], *s[i]),
    decreases l,
{
    match l {
        TreeDeclarations::Nil => {},
        TreeDeclarations::Cons(d, tail) => {
            lemma_decls_order(*tail, s.skip(1));
            assert forall|i: int| 0 <= i < s.len() implies decl_matches(
                #[trigger] decls_seq(l)[i],
                *s[i],
            ) by {
                if i == 0 {
                    assert(decls_seq(l)[0] == d);
                } else {
                    assert(decls_seq(l)[i] == decls_seq(*tail)[i - 1]);
                    assert(s.skip(1)[i - 1] == s[i]);
                }
            }
        },
    }
}

/// Source order of substitution inputs is preserved, in the same sense.
pub proof fn lemma_specs_order(l: TreeInputSpecs, s: Seq<SubstitutionSpec>)
    requires
        specs_match(l, s),
    ensures
        s.len() == l.spec_len(),
        specs_seq(l).len() == l.spec_len(),
        forall|i: int| 0 <= i < s.len() ==> input_spec_matches(#[trigger] specs_seq(l)[i], s[i]),
    decreases l,
{
    match l {
        TreeInputSpecs::Nil => {},
        TreeInputSpecs::Cons(h, tail) => {
            lemma_specs_order(*tail, s.skip(1));
            assert forall|i: int| 0 <= i < s.len() implies input_spec_matches(
                #[trigger] specs_seq(l)[i],
                s[i],
            ) by {
                if i == 0 {
                    assert(specs_seq(l)[0] == h);
                } else {
                    assert(specs_seq(l)[i] == specs_seq(*tail)[i - 1]);
                    assert(s.skip(1)[i - 1] == s[i]);
                }
            }
        },
    }
}

} // verus!
