use nomia_names::gauge::AllocGauge;
use nomia_names::name::Name;
use nomia_names::name::NameRef;
use nomia_names::name::NamespaceId;
use nomia_names::serialize::parse_compiled;
use nomia_names::serialize::prepare_input;
use nomia_names::serialize::ParseError;
use nomia_names::tree::TreeBinding;
use nomia_names::tree::TreeDeclaration;
use nomia_names::tree::TreeDeclarations;
use nomia_names::tree::TreeGraphIndex;
use nomia_names::tree::TreeInputLabel;
use nomia_names::tree::TreeInputSpec;
use nomia_names::tree::TreeInputSpecs;
use nomia_names::tree::TreeInputs;
use nomia_names::tree::TreeName;
use nomia_names::tree::TreeNameRef;
use nomia_names::tree::TreeOutputSelector;
use nomia_names::tree::TreeParam;
use nomia_names::tree::TreeParamList;
use nomia_names::tree::TreeParameterizedId;
use nomia_names::tree::TreeParams;
use nomia_names::tree::TreeQualification;
use nomia_names::tree::TreeSubstitution;

#[test]
fn it_works() {
    assert_eq!(2 + 2, 4);
}

/// A bare identifier reference, as the grammar produces for `a`.
fn var_subst(name: &str) -> TreeSubstitution {
    TreeSubstitution {
        target: TreeNameRef::Variable(name.as_bytes().to_vec()),
        inputs: TreeInputs::Nullary,
    }
}

/// An unqualified, unparameterized atomic target with the given inputs.
fn atomic_subst(id: &str, inputs: TreeInputs) -> TreeSubstitution {
    TreeSubstitution {
        target: TreeNameRef::AtomicRef(
            TreeQualification::Unqualified,
            TreeParameterizedId {
                id: id.as_bytes().to_vec(),
                params: TreeParams::UnParameterized,
            },
        ),
        inputs,
    }
}

fn labeled_spec(label: &str, value: TreeSubstitution) -> TreeInputSpec {
    TreeInputSpec {
        label: TreeInputLabel::Labeled(label.as_bytes().to_vec()),
        value: Box::new(value),
        output: TreeOutputSelector::DefaultOutput,
    }
}

/// The tree the external compiler produces for
/// `let a = f(); let b = g(); h(x: a, y: b)`.
fn sample_tree() -> TreeName {
    TreeName {
        declarations: TreeDeclarations::Cons(
            TreeDeclaration {
                binding: TreeBinding::Bound(b"a".to_vec()),
                value: atomic_subst("f", TreeInputs::Nullary),
            },
            Box::new(TreeDeclarations::Cons(
                TreeDeclaration {
                    binding: TreeBinding::Bound(b"b".to_vec()),
                    value: atomic_subst("g", TreeInputs::Nullary),
                },
                Box::new(TreeDeclarations::Nil),
            )),
        ),
        terminal: atomic_subst(
            "h",
            TreeInputs::Multiary(
                TreeGraphIndex::DefaultIndex,
                TreeInputSpecs::Cons(
                    labeled_spec("x", var_subst("a")),
                    Box::new(TreeInputSpecs::Cons(
                        labeled_spec("y", var_subst("b")),
                        Box::new(TreeInputSpecs::Nil),
                    )),
                ),
            ),
        ),
    }
}

fn parse_unlimited(tree: TreeName) -> Result<Name, ParseError> {
    let mut g = AllocGauge::unlimited();
    let (res, back) = parse_compiled(Some(tree), &mut g);
    assert!(back.is_some());
    res
}

fn atomic_id(r: &NameRef) -> &str {
    match r {
        NameRef::Atomic { name_id, .. } => name_id.id.0.as_str(),
        _ => panic!("expected an atomic reference"),
    }
}

#[test]
fn order_preserved_two_declarations_two_inputs() {
    let name = parse_unlimited(sample_tree()).expect("sample tree must parse");

    assert_eq!(name.let_declarations.len(), 2);
    let da = &name.let_declarations[0];
    let db = &name.let_declarations[1];
    assert_eq!(da.var.as_ref().expect("a is bound").0, "a");
    assert_eq!(atomic_id(&da.val.name), "f");
    assert!(da.val.inputs.is_empty());
    assert_eq!(db.var.as_ref().expect("b is bound").0, "b");
    assert_eq!(atomic_id(&db.val.name), "g");

    let term = &name.terminal_substitution;
    assert_eq!(atomic_id(&term.name), "h");
    assert_eq!(term.inputs.len(), 2);
    let sx = &term.inputs[0];
    let sy = &term.inputs[1];
    assert_eq!(sx.input_id.as_ref().expect("x is named").0, "x");
    match &sx.input_val.name.name {
        NameRef::Variable(id) => assert_eq!(id.0, "a"),
        _ => panic!("input x must reference the variable a"),
    }
    assert!(sx.input_val.output_id.is_none());
    assert_eq!(sy.input_id.as_ref().expect("y is named").0, "y");
    match &sy.input_val.name.name {
        NameRef::Variable(id) => assert_eq!(id.0, "b"),
        _ => panic!("input y must reference the variable b"),
    }
    assert!(sy.input_val.output_id.is_none());
}

/// A counting stand-in for the external grammar compiler.
struct FakeCompiler {
    /// What the next compile call returns.
    next: Option<TreeName>,
    compiles: usize,
    releases: usize,
}

impl FakeCompiler {
    fn new(next: Option<TreeName>) -> FakeCompiler {
        FakeCompiler { next, compiles: 0, releases: 0 }
    }

    fn compile(&mut self, _buf: &cstr_core::CString) -> Option<TreeName> {
        self.compiles += 1;
        self.next.take()
    }

    fn release(&mut self, tree: TreeName) {
        self.releases += 1;
        drop(tree);
    }
}

/// One full adapter call, driven as a hosting tool would drive it.
fn drive(
    compiler: &mut FakeCompiler,
    input: &str,
    gauge: &mut AllocGauge,
) -> Result<Name, ParseError> {
    let buf = match prepare_input(input) {
        Ok(b) => b,
        Err(e) => return Err(e),
    };
    let compiled = compiler.compile(&buf);
    let (res, tree) = parse_compiled(compiled, gauge);
    if let Some(t) = tree {
        compiler.release(t);
    }
    res
}

#[test]
fn release_called_once_on_success() {
    let mut fake = FakeCompiler::new(Some(sample_tree()));
    let mut g = AllocGauge::unlimited();
    let res = drive(&mut fake, "let a = f(); let b = g(); h(x: a, y: b)", &mut g);
    assert!(res.is_ok());
    assert_eq!(fake.compiles, 1);
    assert_eq!(fake.releases, 1);
}

#[test]
fn release_called_once_on_failed_walk() {
    let tree = TreeName {
        declarations: TreeDeclarations::Nil,
        terminal: atomic_subst(
            "h",
            TreeInputs::Multiary(TreeGraphIndex::Selected(1), TreeInputSpecs::Nil),
        ),
    };
    let mut fake = FakeCompiler::new(Some(tree));
    let mut g = AllocGauge::unlimited();
    let res = drive(&mut fake, "h[1]()", &mut g);
    assert_eq!(res.unwrap_err(), ParseError::NotSupported);
    assert_eq!(fake.compiles, 1);
    assert_eq!(fake.releases, 1);
}

#[test]
fn no_release_when_compiler_rejects() {
    let mut fake = FakeCompiler::new(None);
    let mut g = AllocGauge::unlimited();
    let res = drive(&mut fake, "let a = f(", &mut g);
    assert_eq!(res.unwrap_err(), ParseError::BnfcParseError);
    assert_eq!(fake.compiles, 1);
    assert_eq!(fake.releases, 0);
}

#[test]
fn nul_byte_rejected_before_compiler_runs() {
    let mut fake = FakeCompiler::new(Some(sample_tree()));
    let mut g = AllocGauge::unlimited();
    let res = drive(&mut fake, "let a = f\0(); a", &mut g);
    assert_eq!(res.unwrap_err(), ParseError::NulInInput);
    assert_eq!(fake.compiles, 0);
    assert_eq!(fake.releases, 0);
}

#[test]
fn prepare_input_accepts_plain_text() {
    assert!(prepare_input("let a = f(); a").is_ok());
}

#[test]
fn prepared_buffer_carries_the_input_terminated() {
    let buf = prepare_input("let a = f(); a").expect("plain text must prepare");
    assert_eq!(buf.as_bytes_with_nul(), b"let a = f(); a\0");
    let empty = prepare_input("").expect("empty text must prepare");
    assert_eq!(empty.as_bytes_with_nul(), b"\0");
}

#[test]
fn prepare_input_rejects_terminator_byte() {
    assert_eq!(prepare_input("a\0b").unwrap_err(), ParseError::NulInInput);
    assert_eq!(prepare_input("\0").unwrap_err(), ParseError::NulInInput);
}

#[test]
fn cloned_name_repeats_the_structure() {
    let name = parse_unlimited(sample_tree()).expect("sample tree must parse");
    let copy = name.clone();
    assert_eq!(copy.let_declarations.len(), 2);
    assert_eq!(copy.let_declarations[0].var.as_ref().expect("a is bound").0, "a");
    assert_eq!(copy.let_declarations[1].var.as_ref().expect("b is bound").0, "b");
    assert_eq!(atomic_id(&copy.terminal_substitution.name), "h");
    assert_eq!(copy.terminal_substitution.inputs.len(), 2);
    assert_eq!(
        copy.terminal_substitution.inputs[1].input_id.as_ref().expect("y is named").0,
        "y"
    );
    drop(name);
    assert_eq!(atomic_id(&copy.let_declarations[0].val.name), "f");
}

#[test]
fn gauge_budget_counts_requests() {
    let mut g = AllocGauge::fail_on(3);
    assert!(g.try_alloc());
    assert!(g.try_alloc());
    assert!(!g.try_alloc());
    assert!(!g.try_alloc());
    let mut u = AllocGauge::unlimited();
    assert!(u.try_alloc());
}

/// The sample tree takes six allocation requests: the declaration
/// reservation, one owned node per declaration, the input reservation, and
/// one owned node per input.  A budget that refuses any of them yields the
/// matching out-of-memory error; a budget that grants them all succeeds.
#[test]
fn allocation_failure_is_deterministic() {
    let expected = [
        ParseError::VecAllocationError,
        ParseError::BoxAllocationError,
        ParseError::BoxAllocationError,
        ParseError::VecAllocationError,
        ParseError::BoxAllocationError,
        ParseError::BoxAllocationError,
    ];
    for (i, want) in expected.iter().enumerate() {
        let mut g = AllocGauge::fail_on((i + 1) as u64);
        let (res, back) = parse_compiled(Some(sample_tree()), &mut g);
        assert!(back.is_some());
        assert_eq!(res.unwrap_err(), *want);
    }
    let mut g = AllocGauge::fail_on(7);
    let (res, _) = parse_compiled(Some(sample_tree()), &mut g);
    assert!(res.is_ok());
}

#[test]
fn named_namespace_is_not_supported() {
    let tree = TreeName {
        declarations: TreeDeclarations::Nil,
        terminal: TreeSubstitution {
            target: TreeNameRef::AtomicRef(
                TreeQualification::NamedNamespace(
                    Box::new(var_subst("ns")),
                    TreeOutputSelector::DefaultOutput,
                ),
                TreeParameterizedId {
                    id: b"f".to_vec(),
                    params: TreeParams::UnParameterized,
                },
            ),
            inputs: TreeInputs::Nullary,
        },
    };
    assert_eq!(parse_unlimited(tree).unwrap_err(), ParseError::NotSupported);
}

#[test]
fn selected_index_is_not_supported() {
    let tree = TreeName {
        declarations: TreeDeclarations::Nil,
        terminal: atomic_subst(
            "f",
            TreeInputs::Multiary(TreeGraphIndex::Selected(2), TreeInputSpecs::Nil),
        ),
    };
    assert_eq!(parse_unlimited(tree).unwrap_err(), ParseError::NotSupported);
}

#[test]
fn invalid_utf8_is_rejected() {
    let tree = TreeName {
        declarations: TreeDeclarations::Nil,
        terminal: TreeSubstitution {
            target: TreeNameRef::Variable(vec![0xFF, 0xFE]),
            inputs: TreeInputs::Nullary,
        },
    };
    assert_eq!(parse_unlimited(tree).unwrap_err(), ParseError::StringNotUtf8);
}

#[test]
fn multibyte_text_is_decoded() {
    let tree = TreeName {
        declarations: TreeDeclarations::Nil,
        terminal: TreeSubstitution {
            target: TreeNameRef::Variable(vec![0xC3, 0xA9]),
            inputs: TreeInputs::Nullary,
        },
    };
    let name = parse_unlimited(tree).expect("two-byte scalar must decode");
    match &name.terminal_substitution.name {
        NameRef::Variable(id) => assert_eq!(id.0, "\u{e9}"),
        _ => panic!("expected a variable reference"),
    }
}

#[test]
fn unbound_resolved_and_nested_forms_convert() {
    let nested = TreeName {
        declarations: TreeDeclarations::Nil,
        terminal: TreeSubstitution {
            target: TreeNameRef::Resolved(b"r".to_vec()),
            inputs: TreeInputs::Nullary,
        },
    };
    let tree = TreeName {
        declarations: TreeDeclarations::Cons(
            TreeDeclaration {
                binding: TreeBinding::Unbound,
                value: atomic_subst("side", TreeInputs::Nullary),
            },
            Box::new(TreeDeclarations::Nil),
        ),
        terminal: TreeSubstitution {
            target: TreeNameRef::NestedNameRef(Box::new(nested)),
            inputs: TreeInputs::Nullary,
        },
    };
    let name = parse_unlimited(tree).expect("nested form must parse");
    assert_eq!(name.let_declarations.len(), 1);
    assert!(name.let_declarations[0].var.is_none());
    match &name.terminal_substitution.name {
        NameRef::Nested(inner) => match &inner.terminal_substitution.name {
            NameRef::Resolved(id) => assert_eq!(id.0, "r"),
            _ => panic!("expected a resolved reference inside"),
        },
        _ => panic!("expected a nested name"),
    }
}

#[test]
fn builtin_namespace_and_parameters_convert_in_order() {
    let pid = TreeParameterizedId {
        id: b"pkg".to_vec(),
        params: TreeParams::Parameterized(TreeParamList::Cons(
            TreeParam { key: b"arch".to_vec(), val: b"arm".to_vec() },
            Box::new(TreeParamList::Cons(
                TreeParam { key: b"opt".to_vec(), val: b"small".to_vec() },
                Box::new(TreeParamList::Nil),
            )),
        )),
    };
    let tree = TreeName {
        declarations: TreeDeclarations::Nil,
        terminal: TreeSubstitution {
            target: TreeNameRef::AtomicRef(
                TreeQualification::BuiltinNamespace(TreeParameterizedId {
                    id: b"std".to_vec(),
                    params: TreeParams::UnParameterized,
                }),
                pid,
            ),
            inputs: TreeInputs::Nullary,
        },
    };
    let name = parse_unlimited(tree).expect("builtin namespace must parse");
    match &name.terminal_substitution.name {
        NameRef::Atomic { namespace_id, name_id } => {
            match namespace_id.as_ref().expect("namespace present") {
                NamespaceId::Builtin(ns) => {
                    assert_eq!(ns.id.0, "std");
                    assert!(ns.params.is_empty());
                }
                _ => panic!("expected a builtin namespace"),
            }
            assert_eq!(name_id.id.0, "pkg");
            assert_eq!(name_id.params.len(), 2);
            assert_eq!(name_id.params[0].name, "arch");
            assert_eq!(name_id.params[0].val, "arm");
            assert_eq!(name_id.params[1].name, "opt");
            assert_eq!(name_id.params[1].val, "small");
        }
        _ => panic!("expected an atomic reference"),
    }
}

#[test]
fn named_output_selection_converts() {
    let spec = TreeInputSpec {
        label: TreeInputLabel::Unlabeled,
        value: Box::new(var_subst("a")),
        output: TreeOutputSelector::NamedOutput(b"out".to_vec()),
    };
    let tree = TreeName {
        declarations: TreeDeclarations::Nil,
        terminal: atomic_subst(
            "f",
            TreeInputs::Multiary(
                TreeGraphIndex::DefaultIndex,
                TreeInputSpecs::Cons(spec, Box::new(TreeInputSpecs::Nil)),
            ),
        ),
    };
    let name = parse_unlimited(tree).expect("named output must parse");
    let s = &name.terminal_substitution.inputs[0];
    assert!(s.input_id.is_none());
    assert_eq!(s.input_val.output_id.as_ref().expect("output named").0, "out");
}
