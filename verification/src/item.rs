//! Declaration items and their presentation views.
//!
//! `Item::parse` classifies one syntax node into a declaration item;
//! the view accessors synthesize — and memoize — the insertable snippet, the
//! signature label, and the hover string of an item.

use vstd::prelude::*;

use crate::config::RenderConfig;
use crate::flags::{decode_flags, flags_value, BuiltinFlags};
use crate::param::{params_of_children, params_snippet, Param};
use crate::syntax::{first_named, first_with_field, FieldName, NodeKind, SyntaxNode, TextRange};

verus! {

/// The closed set of declaration item variants.
pub enum ItemKind {
    Variable,
    Function { flags: BuiltinFlags, params: Vec<Param> },
    Keyword(String),
    Module { flags: BuiltinFlags, params: Vec<Param> },
}

/// The completion categories of the editor protocol that items map to.
#[derive(Clone, Copy, Debug, PartialEq, Eq, Structural)]
pub enum CompletionKind {
    Variable,
    Function,
    Keyword,
    Module,
}

/// The document-symbol categories of the editor protocol that items map to.
#[derive(Clone, Copy, Debug, PartialEq, Eq, Structural)]
pub enum SymbolKind {
    Function,
    Module,
    Variable,
    Key,
}

/// One declaration occurrence, with its lazily computed, independently
/// memoized presentation views.
pub struct Item {
    pub name: String,
    pub kind: ItemKind,
    pub range: TextRange,
    pub url: Option<String>,
    pub is_builtin: bool,
    pub doc: Option<String>,
    pub hover: Option<String>,
    pub label: Option<String>,
    pub snippet: Option<String>,
}

/// The completion category of each item variant.
pub open spec fn completion_kind_of(kind: ItemKind) -> CompletionKind {
    match kind {
        ItemKind::Variable => CompletionKind::Variable,
        ItemKind::Function { .. } => CompletionKind::Function,
        ItemKind::Keyword(_) => CompletionKind::Keyword,
        ItemKind::Module { .. } => CompletionKind::Module,
    }
}

/// The document-symbol category of each item variant.
pub open spec fn symbol_kind_of(kind: ItemKind) -> SymbolKind {
    match kind {
        ItemKind::Function { .. } => SymbolKind::Function,
        ItemKind::Module { .. } => SymbolKind::Module,
        ItemKind::Variable => SymbolKind::Variable,
        ItemKind::Keyword(_) => SymbolKind::Key,
    }
}

/// One parameter as it appears in a signature label: its name, and
/// `name=default` when it has a default — the label always shows defaults.
pub open spec fn label_param(p: Param) -> Seq<char> {
    match p.default {
        Some(d) => p.name@ + "="@ + d@,
        None => p.name@,
    }
}

/// The first `n` parameters of a signature label, joined with `", "`.
pub open spec fn label_params_upto(ps: Seq<Param>, n: int) -> Seq<char>
    decreases n,
{
    if n <= 0 {
        Seq::empty()
    } else {
        label_params_upto(ps, n - 1) + (if n - 1 > 0 {
            ", "@
        } else {
            Seq::<char>::empty()
        }) + label_param(ps[n - 1])
    }
}

/// The parameter part of a signature label.
pub open spec fn label_params(ps: Seq<Param>) -> Seq<char> {
    label_params_upto(ps, ps.len() as int)
}

/// The signature label of an item: the bare name for variables and keywords,
/// `name(parameters)` for functions and modules. Plain text, no snippet
/// markup.
pub open spec fn label_of(item: Item) -> Seq<char> {
    match item.kind {
        ItemKind::Variable => item.name@,
        ItemKind::Keyword(_) => item.name@,
        ItemKind::Function { params, .. } => item.name@ + "("@ + label_params(params@) + ")"@,
        ItemKind::Module { params, .. } => item.name@ + "("@ + label_params(params@) + ")"@,
    }
}

/// The insertable snippet of an item: the bare name for a variable, the fixed
/// completion text for a keyword, and a call with placeholder arguments for a
/// function or module — terminated with `;` and the final cursor, except that
/// an operator module ends with a space and the final cursor instead.
pub open spec fn snippet_of(item: Item, cfg: RenderConfig) -> Seq<char> {
    match item.kind {
        ItemKind::Variable => item.name@,
        ItemKind::Keyword(text) => text@,
        ItemKind::Function { flags, params } => item.name@ + "("@ + params_snippet(
            params@,
            flags.spec_ignores_param_name(),
            cfg.ignore_defaults,
        ) + ");$0"@,
        ItemKind::Module { flags, params } => {
            let args = params_snippet(
                params@,
                flags.spec_ignores_param_name(),
                cfg.ignore_defaults,
            );
            if flags.spec_is_operator() {
                item.name@ + "("@ + args + ") $0"@
            } else {
                item.name@ + "("@ + args + ");$0"@
            }
        },
    }
}

/// What the label accessor returns: the memoized label if one is stored, else
/// the freshly computed one.
pub open spec fn label_view(item: Item) -> Seq<char> {
    if item.label is Some {
        item.label->0@
    } else {
        label_of(item)
    }
}

/// The hover string of an item: the label — reusing the memoized one if
/// present — wrapped in a fenced code block tagged `scad`, prefixed with the
/// declaring keyword for functions and modules; documentation, if present, is
/// appended after a separator, wrapped in a preformatted block unless the
/// item is builtin.
pub open spec fn hover_of(item: Item) -> Seq<char> {
    let label = label_view(item);
    let block = match item.kind {
        ItemKind::Function { .. } => "```scad\nfunction "@ + label + "\n```"@,
        ItemKind::Module { .. } => "```scad\nmodule "@ + label + "\n```"@,
        _ => "```scad\n"@ + label + "\n```"@,
    };
    match item.doc {
        Some(d) => if item.is_builtin {
            block + "\n---\n\n"@ + d@ + "\n"@
        } else {
            block + "\n---\n\n<pre>\n"@ + d@ + "\n</pre>\n"@
        },
        None => block,
    }
}

/// What the hover accessor returns: the memoized hover if one is stored, else
/// the freshly computed one.
pub open spec fn hover_view(item: Item) -> Seq<char> {
    if item.hover is Some {
        item.hover->0@
    } else {
        hover_of(item)
    }
}

/// What the snippet accessor returns: the memoized snippet if one is stored,
/// else the freshly computed one.
pub open spec fn snippet_view(item: Item, cfg: RenderConfig) -> Seq<char> {
    if item.snippet is Some {
        item.snippet->0@
    } else {
        snippet_of(item, cfg)
    }
}

/// The name-field child of a declaration node.
pub open spec fn name_field(node: SyntaxNode) -> Option<SyntaxNode> {
    first_with_field(node.children@, FieldName::Name)
}

/// The left-field child of an assignment node.
pub open spec fn left_field(node: SyntaxNode) -> Option<SyntaxNode> {
    first_with_field(node.children@, FieldName::Left)
}

/// The parameters of a declaration node: extracted from its parameters-field
/// child, or empty when that field is absent.
pub open spec fn parse_params(node: SyntaxNode) -> Seq<Param> {
    match first_with_field(node.children@, FieldName::Parameters) {
        Some(pl) => params_of_children(pl.children@),
        None => Seq::empty(),
    }
}

/// The flag value of a module declaration: decoded from the first statement
/// of its body — the first named child of the body field — or 0 when there is
/// no such node.
pub open spec fn module_flags(node: SyntaxNode) -> nat {
    match first_with_field(node.children@, FieldName::Body) {
        Some(body) => match first_named(body.children@) {
            Some(c) => flags_value(c.text@),
            None => 0,
        },
        None => 0,
    }
}

/// The flag value of a function declaration: decoded from the last child of
/// the declaration, or 0 when it has none. Functions read their marker from a
/// different place than modules; the asymmetry is part of the convention.
pub open spec fn function_flags(node: SyntaxNode) -> nat {
    if node.children@.len() > 0 {
        flags_value(node.children@.last().text@)
    } else {
        0
    }
}

/// Whether classifying a node produces an item: module and function
/// declarations need a name field, assignments a left field, and no other
/// node kind produces anything.
pub open spec fn produces_item(node: SyntaxNode) -> bool {
    match node.kind {
        NodeKind::ModuleDeclaration => name_field(node) is Some,
        NodeKind::FunctionDeclaration => name_field(node) is Some,
        NodeKind::Assignment => left_field(node) is Some,
        _ => false,
    }
}

impl ItemKind {
    /// The completion category of this item variant.
    pub fn completion_kind(&self) -> (r: CompletionKind)
        ensures
            r == completion_kind_of(*self),
    {
        match self {
            ItemKind::Variable => CompletionKind::Variable,
            ItemKind::Function { .. } => CompletionKind::Function,
            ItemKind::Keyword(_) => CompletionKind::Keyword,
            ItemKind::Module { .. } => CompletionKind::Module,
        }
    }
}

/// Renders `name(PARAMS)` with every parameter shown, defaults included.
fn render_label(name: &String, params: &Vec<Param>) -> (r: String)
    ensures
        r@ == name@ + "("@ + label_params(params@) + ")"@,
{
    let mut out = name.clone();
    out.append("(");
    let n = params.len();
    for j in 0..n
        invariant
            n == params.len(),
            out@ == name@ + "("@ + label_params_upto(params@, j as int),
    {
        if j > 0 {
            out.append(", ");
        }
        let p = &params[j];
        out.append(p.name.as_str());
        match &p.default {
            Some(d) => {
                out.append("=");
                out.append(d.as_str());
            },
            None => {},
        }
        proof {
            assert(out@ =~= name@ + "("@ + label_params_upto(params@, j + 1));
        }
    }
    out.append(")");
    out
}

impl Item {
    /// Classifies one syntax node: a module or function declaration with a
    /// name field becomes a `Module` or `Function` item with its flags and
    /// parameters, an assignment with a left field becomes a `Variable` item,
    /// and every other node — a declaration missing its required field
    /// included — produces nothing.
    pub fn parse(node: &SyntaxNode) -> (r: Option<Item>)
        ensures
            r is Some <==> produces_item(*node),
            r is Some ==> ({
                let item = r->0;
                &&& item.range == node.range
                &&& item.url is None
                &&& !item.is_builtin
                &&& item.doc is None
                &&& item.hover is None
                &&& item.label is None
                &&& item.snippet is None
                &&& match node.kind {
                    NodeKind::ModuleDeclaration => {
                        &&& item.name == name_field(*node)->0.text
                        &&& (item.kind matches ItemKind::Module { flags, params }
                            && flags.bits == module_flags(*node) && params@ == parse_params(*node))
                    },
                    NodeKind::FunctionDeclaration => {
                        &&& item.name == name_field(*node)->0.text
                        &&& (item.kind matches ItemKind::Function { flags, params }
                            && flags.bits == function_flags(*node) && params@ == parse_params(
                            *node,
                        ))
                    },
                    NodeKind::Assignment => {
                        &&& item.name == left_field(*node)->0.text
                        &&& item.kind is Variable
                    },
                    _ => false,
                }
            }),
    {
        match node.kind {
            NodeKind::ModuleDeclaration => {
                match node.child_by_field(FieldName::Name) {
                    None => None,
                    Some(nm) => {
                        let flags = match node.child_by_field(FieldName::Body) {
                            Some(body) => match body.first_named_child() {
                                Some(c) => decode_flags(c.text.as_str()),
                                None => BuiltinFlags { bits: 0 },
                            },
                            None => BuiltinFlags { bits: 0 },
                        };
                        let params = match node.child_by_field(FieldName::Parameters) {
                            Some(pl) => Param::parse_declaration(pl),
                            None => Vec::new(),
                        };
                        Some(
                            Item {
                                name: nm.text.clone(),
                                kind: ItemKind::Module { flags, params },
                                range: node.range,
                                url: None,
                                is_builtin: false,
                                doc: None,
                                hover: None,
                                label: None,
                                snippet: None,
                            },
                        )
                    },
                }
            },
            NodeKind::FunctionDeclaration => {
                match node.child_by_field(FieldName::Name) {
                    None => None,
                    Some(nm) => {
                        let flags = match node.last_child() {
                            Some(c) => decode_flags(c.text.as_str()),
                            None => BuiltinFlags { bits: 0 },
                        };
                        let params = match node.child_by_field(FieldName::Parameters) {
                            Some(pl) => Param::parse_declaration(pl),
                            None => Vec::new(),
                        };
                        Some(
                            Item {
                                name: nm.text.clone(),
                                kind: ItemKind::Function { flags, params },
                                range: node.range,
                                url: None,
                                is_builtin: false,
                                doc: None,
                                hover: None,
                                label: None,
                                snippet: None,
                            },
                        )
                    },
                }
            },
            NodeKind::Assignment => {
                match node.child_by_field(FieldName::Left) {
                    None => None,
                    Some(l) => Some(
                        Item {
                            name: l.text.clone(),
                            kind: ItemKind::Variable,
                            range: node.range,
                            url: None,
                            is_builtin: false,
                            doc: None,
                            hover: None,
                            label: None,
                            snippet: None,
                        },
                    ),
                }
            },
            _ => None,
        }
    }

    /// The document-symbol category of this item.
    pub fn get_symbol_kind(&self) -> (r: SymbolKind)
        ensures
            r == symbol_kind_of(self.kind),
    {
        match &self.kind {
            ItemKind::Function { .. } => SymbolKind::Function,
            ItemKind::Module { .. } => SymbolKind::Module,
            ItemKind::Variable => SymbolKind::Variable,
            ItemKind::Keyword(_) => SymbolKind::Key,
        }
    }

    /// Computes the signature label of this item. Does not memoize.
    pub fn make_label(&self) -> (r: String)
        ensures
            r@ == label_of(*self),
    {
        match &self.kind {
            ItemKind::Variable => self.name.clone(),
            ItemKind::Keyword(_) => self.name.clone(),
            ItemKind::Function { params, .. } => render_label(&self.name, params),
            ItemKind::Module { params, .. } => render_label(&self.name, params),
        }
    }

    /// Computes the snippet of this item under `cfg` and memoizes it,
    /// overwriting any stored snippet.
    pub fn make_snippet(&mut self, cfg: &RenderConfig) -> (s: String)
        ensures
            s@ == snippet_of(*old(self), *cfg),
            final(self).snippet is Some,
            final(self).snippet->0@ == s@,
            final(self).name == old(self).name,
            final(self).kind == old(self).kind,
            final(self).range == old(self).range,
            final(self).url == old(self).url,
            final(self).is_builtin == old(self).is_builtin,
            final(self).doc == old(self).doc,
            final(self).hover == old(self).hover,
            final(self).label == old(self).label,
    {
        let snippet = match &self.kind {
            ItemKind::Variable => self.name.clone(),
            ItemKind::Keyword(text) => text.clone(),
            ItemKind::Function { flags, params } => {
                let mut s = self.name.clone();
                s.append("(");
                let args = Param::make_snippet(params, flags.ignores_param_name(), cfg);
                s.append(args.as_str());
                s.append(");$0");
                proof {
                    assert(s@ =~= snippet_of(*self, *cfg));
                }
                s
            },
            ItemKind::Module { flags, params } => {
                let mut s = self.name.clone();
                s.append("(");
                let args = Param::make_snippet(params, flags.ignores_param_name(), cfg);
                s.append(args.as_str());
                if flags.is_operator() {
                    s.append(") $0");
                } else {
                    s.append(");$0");
                }
                proof {
                    assert(s@ =~= snippet_of(*self, *cfg));
                }
                s
            },
        };
        self.snippet = Some(snippet.clone());
        snippet
    }

    /// Computes the hover string of this item, reusing the memoized label if
    /// one is stored. Does not memoize the result itself.
    pub fn make_hover(&self) -> (r: String)
        ensures
            r@ == hover_of(*self),
    {
        let label = match &self.label {
            Some(l) => l.clone(),
            None => self.make_label(),
        };
        let mut h = match &self.kind {
            ItemKind::Function { .. } => String::from_str("```scad\nfunction "),
            ItemKind::Module { .. } => String::from_str("```scad\nmodule "),
            _ => String::from_str("```scad\n"),
        };
        h.append(label.as_str());
        h.append("\n```");
        match &self.doc {
            Some(d) => {
                if self.is_builtin {
                    h.append("\n---\n\n");
                    h.append(d.as_str());
                    h.append("\n");
                } else {
                    h.append("\n---\n\n<pre>\n");
                    h.append(d.as_str());
                    h.append("\n</pre>\n");
                }
            },
            None => {},
        }
        proof {
            assert(h@ =~= hover_of(*self));
        }
        h
    }

    /// Returns the snippet of this item under `cfg`, computing and memoizing
    /// it on the first call and returning the stored string thereafter. The
    /// stored string is returned even when `cfg` differs from the
    /// configuration it was computed under, as the contract states: callers
    /// that render one item under several configurations must not rely on
    /// this cache.
    pub fn get_snippet(&mut self, cfg: &RenderConfig) -> (s: String)
        ensures
            s@ == snippet_view(*old(self), *cfg),
            final(self).snippet is Some,
            final(self).snippet->0@ == s@,
            final(self).name == old(self).name,
            final(self).kind == old(self).kind,
            final(self).range == old(self).range,
            final(self).url == old(self).url,
            final(self).is_builtin == old(self).is_builtin,
            final(self).doc == old(self).doc,
            final(self).hover == old(self).hover,
            final(self).label == old(self).label,
    {
        if self.snippet.is_none() {
            self.make_snippet(cfg);
        }
        self.snippet.as_ref().unwrap().clone()
    }

    /// Returns the hover string, computing and memoizing it on the first call
    /// and returning the stored string thereafter.
    pub fn get_hover(&mut self) -> (r: String)
        ensures
            r@ == hover_view(*old(self)),
            final(self).hover is Some,
            final(self).hover->0@ == r@,
            final(self).name == old(self).name,
            final(self).kind == old(self).kind,
            final(self).range == old(self).range,
            final(self).url == old(self).url,
            final(self).is_builtin == old(self).is_builtin,
            final(self).doc == old(self).doc,
            final(self).label == old(self).label,
            final(self).snippet == old(self).snippet,
    {
        if self.hover.is_none() {
            let h = self.make_hover();
            self.hover = Some(h);
        }
        self.hover.as_ref().unwrap().clone()
    }

    /// Returns the signature label, computing and memoizing it on the first
    /// call and returning the stored string thereafter.
    pub fn get_label(&mut self) -> (r: String)
        ensures
            r@ == label_view(*old(self)),
            final(self).label is Some,
            final(self).label->0@ == r@,
            final(self).name == old(self).name,
            final(self).kind == old(self).kind,
            final(self).range == old(self).range,
            final(self).url == old(self).url,
            final(self).is_builtin == old(self).is_builtin,
            final(self).doc == old(self).doc,
            final(self).hover == old(self).hover,
            final(self).snippet == old(self).snippet,
    {
        if self.label.is_none() {
            let l = self.make_label();
            self.label = Some(l);
        }
        self.label.as_ref().unwrap().clone()
    }
}

} // verus!
