//! The node views of the parse tree handed over by the external grammar
//! compiler.
//!
//! The compiler itself is an outside collaborator: it turns a terminated
//! text buffer into a tree, or reports failure, and the tree is walked here
//! through the typed, tag-discriminated views below.  Sibling lists arrive as
//! singly-linked chains, and every text payload is a raw byte buffer whose
//! UTF-8 validity is only established while the tree is rebuilt into an
//! owned [`crate::name::Name`].

use vstd::prelude::*;

verus! {

/// The root view: the let-bound declarations and the terminal substitution.
#[derive(Debug)]
pub struct TreeName {
    /// The chain of let-bound declarations, in source order.
    pub declarations: TreeDeclarations,
    /// The terminal substitution.
    pub terminal: TreeSubstitution,
}

/// A singly-linked chain of declarations.
#[derive(Debug)]
pub enum TreeDeclarations {
    /// The end of the chain.
    Nil,
    /// One declaration followed by the rest of the chain.
    Cons(TreeDeclaration, Box<TreeDeclarations>),
}

/// One declaration: a binding tag and the substituted value.
#[derive(Debug)]
pub struct TreeDeclaration {
    /// Whether the declaration binds a variable.
    pub binding: TreeBinding,
    /// The substitution bound by the declaration.
    pub value: TreeSubstitution,
}

/// The binding-presence tag of a declaration.
#[derive(Clone, Debug)]
pub enum TreeBinding {
    /// No variable is bound.
    Unbound,
    /// The declaration binds the named variable.
    Bound(Vec<u8>),
}

/// A substitution: a target reference and its inputs.
#[derive(Debug)]
pub struct TreeSubstitution {
    /// The reference identifying the target name.
    pub target: TreeNameRef,
    /// The inputs substituted into the target.
    pub inputs: TreeInputs,
}

/// The reference-kind tag of a substitution target.
#[derive(Debug)]
pub enum TreeNameRef {
    /// An atomic lookup: an optional namespace qualification and a
    /// parameterized identifier.
    AtomicRef(TreeQualification, TreeParameterizedId),
    /// A variable reference.
    Variable(Vec<u8>),
    /// A resolved-variable reference.
    Resolved(Vec<u8>),
    /// A nested name, inlined in full.
    NestedNameRef(Box<TreeName>),
}

/// The namespace qualification of an atomic reference.
#[derive(Debug)]
pub enum TreeQualification {
    /// No qualification: the namespace is left to the resolution context.
    Unqualified,
    /// A namespace identified by an opaque id and parameters.
    BuiltinNamespace(TreeParameterizedId),
    /// A namespace computed as an output of another substitution.
    NamedNamespace(Box<TreeSubstitution>, TreeOutputSelector),
}

/// An identifier with its parameter-list tag.
#[derive(Debug)]
pub struct TreeParameterizedId {
    /// The opaque identifier.
    pub id: Vec<u8>,
    /// The parameters modifying the identifier.
    pub params: TreeParams,
}

/// The parameter-list tag of a parameterized identifier.
#[derive(Debug)]
pub enum TreeParams {
    /// No parameter list.
    UnParameterized,
    /// A parameter list with the given chain of entries.
    Parameterized(TreeParamList),
}

/// A singly-linked chain of key-value parameters.
#[derive(Debug)]
pub enum TreeParamList {
    /// The end of the chain.
    Nil,
    /// One parameter followed by the rest of the chain.
    Cons(TreeParam, Box<TreeParamList>),
}

/// One key-value parameter.
#[derive(Clone, Debug)]
pub struct TreeParam {
    /// The parameter key.
    pub key: Vec<u8>,
    /// The parameter value.
    pub val: Vec<u8>,
}

/// The inputs-arity tag of a substitution.
#[derive(Debug)]
pub enum TreeInputs {
    /// No inputs.
    Nullary,
    /// An output-selector index and a chain of input specifications.
    Multiary(TreeGraphIndex, TreeInputSpecs),
}

/// The output-selector index of a multiary input list.
#[derive(Clone, Debug)]
pub enum TreeGraphIndex {
    /// The default selector.
    DefaultIndex,
    /// An explicit selector.
    Selected(u64),
}

/// A singly-linked chain of input specifications.
#[derive(Debug)]
pub enum TreeInputSpecs {
    /// The end of the chain.
    Nil,
    /// One input specification followed by the rest of the chain.
    Cons(TreeInputSpec, Box<TreeInputSpecs>),
}

/// One input specification: an optional input label, the substitution whose
/// output is supplied, and an optional output selection.
#[derive(Debug)]
pub struct TreeInputSpec {
    /// The label naming the input, if any.
    pub label: TreeInputLabel,
    /// The substitution whose output is supplied.
    pub value: Box<TreeSubstitution>,
    /// Which output of the substitution is supplied.
    pub output: TreeOutputSelector,
}

/// The label tag of an input specification.
#[derive(Clone, Debug)]
pub enum TreeInputLabel {
    /// The input is matched positionally.
    Unlabeled,
    /// The input is matched by the given name.
    Labeled(Vec<u8>),
}

/// The output selection of an output reference.
#[derive(Clone, Debug)]
pub enum TreeOutputSelector {
    /// The unique or default output.
    DefaultOutput,
    /// The named output.
    NamedOutput(Vec<u8>),
}

impl TreeDeclarations {
    /// The length of the chain.
    pub open spec fn spec_len(self) -> nat
        decreases self,
    {
        match self {
            TreeDeclarations::Nil => 0,
            TreeDeclarations::Cons(_, tail) => 1 + tail.spec_len(),
        }
    }

    /// Counts the chain in one traversal, so that the collection which will
    /// hold it can be reserved at its exact size before filling begins.
    pub fn size(&self) -> (n: usize)
        ensures
            self.spec_len() <= usize::MAX ==> n == self.spec_len(),
    {
        let mut n: usize = 0;
        let mut cur: &TreeDeclarations = self;
        loop
            invariant
                n + cur.spec_len() == self.spec_len() || (n == usize::MAX
                    && self.spec_len() > usize::MAX),
            decreases cur.spec_len(),
        {
            match cur {
                TreeDeclarations::Nil => {
                    return n;
                },
                TreeDeclarations::Cons(_, tail) => {
                    if n < usize::MAX {
                        n = n + 1;
                    }
                    cur = &**tail;
                },
            }
        }
    }
}

impl TreeInputSpecs {
    /// The length of the chain.
    pub open spec fn spec_len(self) -> nat
        decreases self,
    {
        match self {
            TreeInputSpecs::Nil => 0,
            TreeInputSpecs::Cons(_, tail) => 1 + tail.spec_len(),
        }
    }

    /// Counts the chain in one traversal; see [`TreeDeclarations::size`].
    pub fn size(&self) -> (n: usize)
        ensures
            self.spec_len() <= usize::MAX ==> n == self.spec_len(),
    {
        let mut n: usize = 0;
        let mut cur: &TreeInputSpecs = self;
        loop
            invariant
                n + cur.spec_len() == self.spec_len() || (n == usize::MAX
                    && self.spec_len() > usize::MAX),
            decreases cur.spec_len(),
        {
            match cur {
                TreeInputSpecs::Nil => {
                    return n;
                },
                TreeInputSpecs::Cons(_, tail) => {
                    if n < usize::MAX {
                        n = n + 1;
                    }
                    cur = &**tail;
                },
            }
        }
    }
}

impl TreeParamList {
    /// The length of the chain.
    pub open spec fn spec_len(self) -> nat
        decreases self,
    {
        match self {
            TreeParamList::Nil => 0,
            TreeParamList::Cons(_, tail) => 1 + tail.spec_len(),
        }
    }

    /// Counts the chain in one traversal; see [`TreeDeclarations::size`].
    pub fn size(&self) -> (n: usize)
        ensures
            self.spec_len() <= usize::MAX ==> n == self.spec_len(),
    {
        let mut n: usize = 0;
        let mut cur: &TreeParamList = self;
        loop
            invariant
                n + cur.spec_len() == self.spec_len() || (n == usize::MAX
                    && self.spec_len() > usize::MAX),
            decreases cur.spec_len(),
        {
            match cur {
                TreeParamList::Nil => {
                    return n;
                },
                TreeParamList::Cons(_, tail) => {
                    if n < usize::MAX {
                        n = n + 1;
                    }
                    cur = &**tail;
                },
            }
        }
    }
}

} // verus!
