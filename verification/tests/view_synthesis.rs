use scad_items::config::RenderConfig;
use scad_items::flags::BuiltinFlags;
use scad_items::item::{CompletionKind, Item, ItemKind, SymbolKind};
use scad_items::param::Param;
use scad_items::syntax::{TextPosition, TextRange};

fn zero_range() -> TextRange {
    TextRange {
        start: TextPosition { line: 0, character: 0 },
        end: TextPosition { line: 0, character: 0 },
    }
}

fn param(name: &str, default: Option<&str>) -> Param {
    Param {
        name: name.to_string(),
        default: default.map(|d| d.to_string()),
        range: zero_range(),
    }
}

fn item(name: &str, kind: ItemKind) -> Item {
    Item {
        name: name.to_string(),
        kind,
        range: zero_range(),
        url: None,
        is_builtin: false,
        doc: None,
        hover: None,
        label: None,
        snippet: None,
    }
}

fn function(name: &str, bits: u16, params: Vec<Param>) -> Item {
    item(name, ItemKind::Function { flags: BuiltinFlags { bits }, params })
}

fn module(name: &str, bits: u16, params: Vec<Param>) -> Item {
    item(name, ItemKind::Module { flags: BuiltinFlags { bits }, params })
}

#[allow(non_snake_case)]
fn KEEP_DEFAULTS() -> RenderConfig {
    RenderConfig { ignore_defaults: true }
}

#[allow(non_snake_case)]
fn DROP_DEFAULTS() -> RenderConfig {
    RenderConfig { ignore_defaults: false }
}

#[test]
fn zero_parameter_function_snippet() {
    let mut it = function("name", 0, Vec::new());
    assert_eq!(it.get_snippet(&DROP_DEFAULTS()), "name();$0");
}

#[test]
fn operator_module_snippet_has_space_and_no_terminator() {
    let bits = BuiltinFlags::IS_OPERATOR | BuiltinFlags::IGNORE_PARAM_NAME;
    let mut it = module("name", bits, vec![param("a", None)]);
    assert_eq!(it.get_snippet(&DROP_DEFAULTS()), "name(${1:a}) $0");
}

#[test]
fn plain_module_snippet_has_terminator() {
    let mut it = module("cube", BuiltinFlags::IGNORE_PARAM_NAME, vec![param("size", None)]);
    assert_eq!(it.get_snippet(&DROP_DEFAULTS()), "cube(${1:size});$0");
}

#[test]
fn dropped_default_with_hidden_names() {
    let mut it = function(
        "name",
        BuiltinFlags::IGNORE_PARAM_NAME,
        vec![param("a", None), param("b", Some("5"))],
    );
    assert_eq!(it.get_snippet(&DROP_DEFAULTS()), "name(${1:a});$0");
    let mut fresh = function(
        "name",
        BuiltinFlags::IGNORE_PARAM_NAME,
        vec![param("a", None), param("b", Some("5"))],
    );
    assert_eq!(fresh.get_label(), "name(a, b=5)");
}

#[test]
fn spelled_out_default_is_plain_text() {
    let mut it = function(
        "name",
        BuiltinFlags::IGNORE_PARAM_NAME,
        vec![param("a", None), param("b", Some("5"))],
    );
    assert_eq!(it.get_snippet(&KEEP_DEFAULTS()), "name(${1:a}, b = 5);$0");
}

#[test]
fn shown_names_render_name_and_placeholder() {
    let mut it = function("f", 0, vec![param("x", None), param("y", None)]);
    assert_eq!(it.get_snippet(&DROP_DEFAULTS()), "f(x = ${1:x}, y = ${2:y});$0");
}

#[test]
fn placeholder_indices_pass_ten() {
    let names = ["a", "b", "c", "d", "e", "f", "g", "h", "i", "j", "k", "l"];
    let params: Vec<Param> = names.iter().map(|n| param(n, None)).collect();
    let mut it = module("m", BuiltinFlags::IGNORE_PARAM_NAME, params);
    assert_eq!(
        it.get_snippet(&DROP_DEFAULTS()),
        "m(${1:a}, ${2:b}, ${3:c}, ${4:d}, ${5:e}, ${6:f}, ${7:g}, ${8:h}, ${9:i}, ${10:j}, ${11:k}, ${12:l});$0"
    );
}

#[test]
fn variable_and_keyword_snippets() {
    let mut v = item("width", ItemKind::Variable);
    assert_eq!(v.get_snippet(&DROP_DEFAULTS()), "width");
    let mut k = item("if", ItemKind::Keyword("if (${1:condition}) $0".to_string()));
    assert_eq!(k.get_snippet(&DROP_DEFAULTS()), "if (${1:condition}) $0");
}

#[test]
fn labels_show_defaults_and_carry_no_markup() {
    let mut f = function("f", BuiltinFlags::IGNORE_PARAM_NAME, vec![
        param("a", None),
        param("b", Some("5")),
    ]);
    let label = f.get_label();
    assert_eq!(label, "f(a, b=5)");
    assert!(!label.contains("${"));
    assert!(!label.contains("$0"));
    let mut m = module("m", BuiltinFlags::IS_OPERATOR, vec![param("x", Some("true"))]);
    let label = m.get_label();
    assert_eq!(label, "m(x=true)");
    assert!(!label.contains("${"));
    assert!(!label.contains("$0"));
    let mut v = item("width", ItemKind::Variable);
    assert_eq!(v.get_label(), "width");
    let mut k = item("if", ItemKind::Keyword("if (${1:c}) $0".to_string()));
    // The label of a keyword is its name, not its completion text.
    assert_eq!(k.get_label(), "if");
}

#[test]
fn hover_wraps_label_in_code_block() {
    let mut f = function("f", 0, vec![param("a", None)]);
    assert_eq!(f.get_hover(), "```scad\nfunction f(a)\n```");
    let mut m = module("m", 0, Vec::new());
    assert_eq!(m.get_hover(), "```scad\nmodule m()\n```");
    let mut v = item("width", ItemKind::Variable);
    assert_eq!(v.get_hover(), "```scad\nwidth\n```");
}

#[test]
fn hover_appends_trusted_doc_directly() {
    let mut it = module("cube", 0, vec![param("size", None)]);
    it.is_builtin = true;
    it.doc = Some("Creates a cube.".to_string());
    assert_eq!(
        it.get_hover(),
        "```scad\nmodule cube(size)\n```\n---\n\nCreates a cube.\n"
    );
}

#[test]
fn hover_wraps_untrusted_doc_in_pre_block() {
    let mut it = function("helper", 0, Vec::new());
    it.doc = Some("user notes".to_string());
    assert_eq!(
        it.get_hover(),
        "```scad\nfunction helper()\n```\n---\n\n<pre>\nuser notes\n</pre>\n"
    );
}

#[test]
fn hover_reuses_memoized_label() {
    let mut it = function("f", 0, Vec::new());
    let label = it.get_label();
    assert_eq!(label, "f()");
    assert_eq!(it.get_hover(), "```scad\nfunction f()\n```");
}

#[test]
fn memoized_accessors_return_identical_strings() {
    let mut it = module(
        "m",
        BuiltinFlags::IGNORE_PARAM_NAME,
        vec![param("a", None), param("b", Some("2"))],
    );
    let s1 = it.get_snippet(&DROP_DEFAULTS());
    let s2 = it.get_snippet(&DROP_DEFAULTS());
    assert_eq!(s1, s2);
    let l1 = it.get_label();
    let l2 = it.get_label();
    assert_eq!(l1, l2);
    let h1 = it.get_hover();
    let h2 = it.get_hover();
    assert_eq!(h1, h2);
}

#[test]
fn kind_mappers_cover_every_variant() {
    let v = item("v", ItemKind::Variable);
    assert_eq!(v.kind.completion_kind(), CompletionKind::Variable);
    assert_eq!(v.get_symbol_kind(), SymbolKind::Variable);
    let f = function("f", 0, Vec::new());
    assert_eq!(f.kind.completion_kind(), CompletionKind::Function);
    assert_eq!(f.get_symbol_kind(), SymbolKind::Function);
    let k = item("k", ItemKind::Keyword("k".to_string()));
    assert_eq!(k.kind.completion_kind(), CompletionKind::Keyword);
    assert_eq!(k.get_symbol_kind(), SymbolKind::Key);
    let m = module("m", 0, Vec::new());
    assert_eq!(m.kind.completion_kind(), CompletionKind::Module);
    assert_eq!(m.get_symbol_kind(), SymbolKind::Module);
}

#[test]
fn decimal_rendering_of_indices() {
    assert_eq!(scad_items::dec_string(0), "0");
    assert_eq!(scad_items::dec_string(7), "7");
    assert_eq!(scad_items::dec_string(12), "12");
    assert_eq!(scad_items::dec_string(305), "305");
}
