use scad_items::item::{Item, ItemKind};
use scad_items::syntax::{FieldName, NodeKind, SyntaxNode, TextPosition, TextRange};

fn mk_span(line: u32, a: u32, b: u32) -> TextRange {
    TextRange {
        start: TextPosition { line, character: a },
        end: TextPosition { line, character: b },
    }
}

fn mk_node(
    kind: NodeKind,
    text: &str,
    field: Option<FieldName>,
    is_named: bool,
    children: Vec<SyntaxNode>,
) -> SyntaxNode {
    SyntaxNode {
        kind,
        text: text.to_string(),
        range: mk_span(0, 0, text.len() as u32),
        is_named,
        field,
        children,
    }
}

fn mk_leaf(kind: NodeKind, text: &str, field: Option<FieldName>) -> SyntaxNode {
    mk_node(kind, text, field, true, Vec::new())
}

fn mk_params_field(children: Vec<SyntaxNode>) -> SyntaxNode {
    mk_node(NodeKind::Other, "", Some(FieldName::Parameters), true, children)
}

#[test]
fn module_declaration_becomes_module_item() {
    let body = mk_node(
        NodeKind::Other,
        "{ builtin_flags(0000000000000001); }",
        Some(FieldName::Body),
        true,
        vec![mk_leaf(NodeKind::Other, "builtin_flags(0000000000000001);", None)],
    );
    let node = mk_node(
        NodeKind::ModuleDeclaration,
        "module translate_x(x) { builtin_flags(0000000000000001); }",
        None,
        true,
        vec![
            mk_leaf(NodeKind::Identifier, "translate_x", Some(FieldName::Name)),
            mk_params_field(vec![mk_leaf(NodeKind::Identifier, "x", None)]),
            body,
        ],
    );
    let it = Item::parse(&node).unwrap();
    assert_eq!(it.name, "translate_x");
    assert_eq!(it.range, node.range);
    assert!(it.url.is_none());
    assert!(!it.is_builtin);
    assert!(it.doc.is_none());
    match &it.kind {
        ItemKind::Module { flags, params } => {
            assert!(flags.is_operator());
            assert!(!flags.ignores_param_name());
            assert_eq!(params.len(), 1);
            assert_eq!(params[0].name, "x");
        }
        _ => panic!("expected a module item"),
    }
}

#[test]
fn module_flags_come_from_first_body_statement() {
    // The first named child of the body carries no marker, so flags are 0
    // even though a later statement carries one.
    let body = mk_node(
        NodeKind::Other,
        "{ x = 1; builtin_flags(0000000000000011); }",
        Some(FieldName::Body),
        true,
        vec![
            mk_leaf(NodeKind::Other, "x = 1;", None),
            mk_leaf(NodeKind::Other, "builtin_flags(0000000000000011);", None),
        ],
    );
    let node = mk_node(
        NodeKind::ModuleDeclaration,
        "module m() ...",
        None,
        true,
        vec![mk_leaf(NodeKind::Identifier, "m", Some(FieldName::Name)), body],
    );
    let it = Item::parse(&node).unwrap();
    match &it.kind {
        ItemKind::Module { flags, params } => {
            assert_eq!(flags.bits, 0);
            assert!(params.is_empty());
        }
        _ => panic!("expected a module item"),
    }
}

#[test]
fn function_flags_come_from_last_child() {
    let node = mk_node(
        NodeKind::FunctionDeclaration,
        "function f(x) = builtin_flags(0000000000000010);",
        None,
        true,
        vec![
            mk_leaf(NodeKind::Other, "function", None),
            mk_leaf(NodeKind::Identifier, "f", Some(FieldName::Name)),
            mk_params_field(vec![mk_leaf(NodeKind::Identifier, "x", None)]),
            mk_leaf(NodeKind::Other, "builtin_flags(0000000000000010);", None),
        ],
    );
    let it = Item::parse(&node).unwrap();
    match &it.kind {
        ItemKind::Function { flags, params } => {
            assert_eq!(flags.bits, 2);
            assert_eq!(params.len(), 1);
            assert_eq!(params[0].name, "x");
        }
        _ => panic!("expected a function item"),
    }
}

#[test]
fn function_without_marker_gets_zero_flags() {
    let node = mk_node(
        NodeKind::FunctionDeclaration,
        "function g() = 1;",
        None,
        true,
        vec![
            mk_leaf(NodeKind::Identifier, "g", Some(FieldName::Name)),
            mk_leaf(NodeKind::Other, "1;", None),
        ],
    );
    let it = Item::parse(&node).unwrap();
    match &it.kind {
        ItemKind::Function { flags, params } => {
            assert_eq!(flags.bits, 0);
            assert!(params.is_empty());
        }
        _ => panic!("expected a function item"),
    }
}

#[test]
fn assignment_becomes_variable_item() {
    let node = mk_node(
        NodeKind::Assignment,
        "width = 10;",
        None,
        true,
        vec![
            mk_leaf(NodeKind::Identifier, "width", Some(FieldName::Left)),
            mk_leaf(NodeKind::Other, "10", Some(FieldName::Right)),
        ],
    );
    let it = Item::parse(&node).unwrap();
    assert_eq!(it.name, "width");
    assert!(matches!(it.kind, ItemKind::Variable));
}

#[test]
fn declaration_without_name_yields_nothing() {
    let module = mk_node(
        NodeKind::ModuleDeclaration,
        "module () {}",
        None,
        true,
        vec![mk_params_field(Vec::new())],
    );
    assert!(Item::parse(&module).is_none());
    let assignment = mk_node(NodeKind::Assignment, "= 1", None, true, Vec::new());
    assert!(Item::parse(&assignment).is_none());
}

#[test]
fn unclassifiable_node_yields_nothing() {
    let node = mk_leaf(NodeKind::Other, "echo(1);", None);
    assert!(Item::parse(&node).is_none());
    let node = mk_leaf(NodeKind::Identifier, "x", None);
    assert!(Item::parse(&node).is_none());
}

#[test]
fn missing_parameter_field_yields_empty_list() {
    let node = mk_node(
        NodeKind::ModuleDeclaration,
        "module m;",
        None,
        true,
        vec![mk_leaf(NodeKind::Identifier, "m", Some(FieldName::Name))],
    );
    let it = Item::parse(&node).unwrap();
    match &it.kind {
        ItemKind::Module { flags, params } => {
            assert_eq!(flags.bits, 0);
            assert!(params.is_empty());
        }
        _ => panic!("expected a module item"),
    }
}
