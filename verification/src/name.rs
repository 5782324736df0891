//! The abstract syntax tree for names.
//!
//! A name is a scoped list of let-bindings followed by one terminal
//! substitution.  All nodes are plain owned data: references are exclusive
//! heap ownership (`Box`), collections are ordered growable sequences
//! (`Vec`), and text is owned UTF-8 buffers (`String`).  Nothing here is
//! mutated after construction, and a name owns its whole subtree, so teardown
//! is ordinary recursive release.

use vstd::prelude::*;

verus! {

/// An opaque identifier for variables and name/namespace ids.
#[derive(Clone, Debug)]
pub struct Identifier(pub String);

/// A name: a (possibly empty) sequence of node declarations bound in a `let`
/// and a terminal node substitution.
#[derive(Debug)]
pub struct Name {
    /// The let-bound nodes, in source order.
    pub let_declarations: Vec<Box<Declaration>>,
    /// The terminal node.
    pub terminal_substitution: Substitution,
}

/// A node declaration: one `let`-binding.
///
/// The substituted name can optionally be assigned to a variable; when the
/// variable is omitted the binding exists only for its position.
#[derive(Debug)]
pub struct Declaration {
    /// The variable to bind the substituted name to, if any.
    pub var: Option<Identifier>,
    /// The name and its substituted inputs.
    pub val: Substitution,
}

/// A name together with any inputs substituted into it.
#[derive(Debug)]
pub struct Substitution {
    /// An identification of the name to substitute into.
    pub name: NameRef,
    /// The inputs to substitute into the given name, in source order.
    pub inputs: Vec<SubstitutionSpec>,
}

/// An identification of a [`Name`].
#[derive(Debug)]
pub enum NameRef {
    /// An atomic name, with no substitutions.
    Atomic {
        /// The namespace the name is in; if omitted, it must be filled in
        /// from the context this name is resolved in.
        namespace_id: Option<NamespaceId>,
        /// The specific name within the namespace.
        name_id: ParameterizedId,
    },
    /// A variable, bound somewhere within the scope of the usage.
    Variable(Identifier),
    /// A resolved name reference: the variable must be bound to an
    /// appropriate resolved name when this name is resolved.
    Resolved(Identifier),
    /// A recursively inlined other name.
    Nested(Box<Name>),
}

/// A specification of an input to be substituted.
#[derive(Debug)]
pub struct SubstitutionSpec {
    /// The name of the input to substitute into; if omitted, the input must
    /// be determinable positionally.
    pub input_id: Option<Identifier>,
    /// The name output to substitute into the given input.
    pub input_val: OutputRef,
}

/// A reference to an output of some name.
#[derive(Debug)]
pub struct OutputRef {
    /// The name whose output is being referenced.
    pub name: Box<Substitution>,
    /// The specific output being referenced; if omitted, the output must be
    /// inferrable from the resolution context.
    pub output_id: Option<Identifier>,
}

/// An identification of a namespace within a root namespace of namespaces.
#[derive(Debug)]
pub enum NamespaceId {
    /// A namespace identified by an opaque id and parameters.
    Builtin(ParameterizedId),
    /// A namespace identified as the output of some other name.
    Named(OutputRef),
}

/// An identifier paired with a parameter list.
#[derive(Clone, Debug)]
pub struct ParameterizedId {
    /// The opaque identifier.
    pub id: Identifier,
    /// The parameters modifying the identifier, in source order.
    pub params: Vec<Parameter>,
}

/// A key-value pair parameterizing some identifier.
#[derive(Clone, Debug)]
pub struct Parameter {
    /// The parameter name.
    pub name: String,
    /// The parameter value.
    pub val: String,
}

// ---------------------------------------------------------------------------
// Deep copies
// ---------------------------------------------------------------------------
// The node set is mutually recursive through `Vec` and `Box`, which the
// derived `Clone` cannot carry a termination argument across, so these
// copies are written out.  Nothing is claimed of a copy beyond what the
// field clones give.
impl Clone for Name {
    fn clone(&self) -> (res: Self)
        decreases *self,
    {
        let mut decls: Vec<Box<Declaration>> = Vec::new();
        let mut i: usize = 0;
        while i < self.let_declarations.len()
            invariant
                i <= self.let_declarations@.len(),
            decreases self.let_declarations@.len() - i,
        {
            let d: &Declaration = &self.let_declarations[i];
            decls.push(Box::new(d.clone()));
            i = i + 1;
        }
        Name {
            let_declarations: decls,
            terminal_substitution: self.terminal_substitution.clone(),
        }
    }
}

impl Clone for Declaration {
    fn clone(&self) -> (res: Self)
        decreases *self,
    {
        Declaration {
            var: match &self.var {
                Some(id) => Some(id.clone()),
                None => None,
            },
            val: self.val.clone(),
        }
    }
}

impl Clone for Substitution {
    fn clone(&self) -> (res: Self)
        decreases *self,
    {
        let mut inputs: Vec<SubstitutionSpec> = Vec::new();
        let mut i: usize = 0;
        while i < self.inputs.len()
            invariant
                i <= self.inputs@.len(),
            decreases self.inputs@.len() - i,
        {
            let s: &SubstitutionSpec = &self.inputs[i];
            inputs.push(s.clone());
            i = i + 1;
        }
        Substitution { name: self.name.clone(), inputs }
    }
}

impl Clone for NameRef {
    fn clone(&self) -> (res: Self)
        decreases *self,
    {
        match self {
            NameRef::Atomic { namespace_id, name_id } => NameRef::Atomic {
                namespace_id: match namespace_id {
                    Some(ns) => Some(ns.clone()),
                    None => None,
                },
                name_id: name_id.clone(),
            },
            NameRef::Variable(id) => NameRef::Variable(id.clone()),
            NameRef::Resolved(id) => NameRef::Resolved(id.clone()),
            NameRef::Nested(n) => NameRef::Nested(Box::new((**n).clone())),
        }
    }
}

impl Clone for SubstitutionSpec {
    fn clone(&self) -> (res: Self)
        decreases *self,
    {
        SubstitutionSpec {
            input_id: match &self.input_id {
                Some(id) => Some(id.clone()),
                None => None,
            },
            input_val: self.input_val.clone(),
        }
    }
}

impl Clone for OutputRef {
    fn clone(&self) -> (res: Self)
        decreases *self,
    {
        OutputRef {
            name: Box::new((*self.name).clone()),
            output_id: match &self.output_id {
                Some(id) => Some(id.clone()),
                None => None,
            },
        }
    }
}

impl Clone for NamespaceId {
    fn clone(&self) -> (res: Self)
        decreases *self,
    {
        match self {
            NamespaceId::Builtin(pid) => NamespaceId::Builtin(pid.clone()),
            NamespaceId::Named(out) => NamespaceId::Named(out.clone()),
        }
    }
}

} // verus!
