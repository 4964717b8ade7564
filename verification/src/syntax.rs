//! A plain-value model of the parsed source tree.
//!
//! The declaration analysis only ever reads a node's kind tag, its text, its
//! source range, and its children (looked up by field label, by named-child
//! position, or in order). `SyntaxNode` holds exactly those observations, so
//! everything downstream of the parser can be reasoned about directly.

use vstd::prelude::*;

verus! {

/// A position in the source text, in line/character coordinates.
#[derive(Clone, Copy, Debug, PartialEq, Eq, Structural)]
pub struct TextPosition {
    pub line: u32,
    pub character: u32,
}

/// A half-open span of source text used for navigation.
#[derive(Clone, Copy, Debug, PartialEq, Eq, Structural)]
pub struct TextRange {
    pub start: TextPosition,
    pub end: TextPosition,
}

/// The node kinds that the declaration analysis distinguishes. Every other
/// kind tag of the grammar maps to `Other`.
#[derive(Clone, Copy, Debug, PartialEq, Eq, Structural)]
pub enum NodeKind {
    ModuleDeclaration,
    FunctionDeclaration,
    Assignment,
    Identifier,
    SpecialVariable,
    Other,
}

/// The field labels under which the analysis looks up children. Every other
/// field label of the grammar maps to `OtherField`.
#[derive(Clone, Copy, Debug, PartialEq, Eq, Structural)]
pub enum FieldName {
    Name,
    Left,
    Right,
    Parameters,
    Body,
    OtherField,
}

/// One node of the parsed tree, as the declaration analysis sees it:
/// a kind tag, the raw source text the node spans, its range, whether the
/// grammar counts it as a named node, the field label that ties it to its
/// parent (if any), and its children in source order.
pub struct SyntaxNode {
    pub kind: NodeKind,
    pub text: String,
    pub range: TextRange,
    pub is_named: bool,
    pub field: Option<FieldName>,
    pub children: Vec<SyntaxNode>,
}

/// The first node at or after position `i` that is tied to its parent by
/// field label `f`.
pub open spec fn first_with_field_from(cs: Seq<SyntaxNode>, f: FieldName, i: int) -> Option<
    SyntaxNode,
>
    decreases cs.len() - i,
{
    if i < 0 || i >= cs.len() {
        None
    } else if cs[i].field == Some(f) {
        Some(cs[i])
    } else {
        first_with_field_from(cs, f, i + 1)
    }
}

/// The first child carrying field label `f`.
pub open spec fn first_with_field(cs: Seq<SyntaxNode>, f: FieldName) -> Option<SyntaxNode> {
    first_with_field_from(cs, f, 0)
}

/// The first node at or after position `i` that the grammar counts as named.
pub open spec fn first_named_from(cs: Seq<SyntaxNode>, i: int) -> Option<SyntaxNode>
    decreases cs.len() - i,
{
    if i < 0 || i >= cs.len() {
        None
    } else if cs[i].is_named {
        Some(cs[i])
    } else {
        first_named_from(cs, i + 1)
    }
}

/// The first named child, if any.
pub open spec fn first_named(cs: Seq<SyntaxNode>) -> Option<SyntaxNode> {
    first_named_from(cs, 0)
}

impl SyntaxNode {
    /// The first child carrying field label `f`, if any.
    pub fn child_by_field(&self, f: FieldName) -> (r: Option<&SyntaxNode>)
        ensures
            r is Some <==> first_with_field(self.children@, f) is Some,
            r is Some ==> *r->0 == first_with_field(self.children@, f)->0,
    {
        let n = self.children.len();
        for i in 0..n
            invariant
                n == self.children.len(),
                first_with_field(self.children@, f) == first_with_field_from(
                    self.children@,
                    f,
                    i as int,
                ),
        {
            let has = match self.children[i].field {
                Some(g) => g == f,
                None => false,
            };
            if has {
                return Some(&self.children[i]);
            }
        }
        None
    }

    /// The first named child, if any.
    pub fn first_named_child(&self) -> (r: Option<&SyntaxNode>)
        ensures
            r is Some <==> first_named(self.children@) is Some,
            r is Some ==> *r->0 == first_named(self.children@)->0,
    {
        let n = self.children.len();
        for i in 0..n
            invariant
                n == self.children.len(),
                first_named(self.children@) == first_named_from(self.children@, i as int),
        {
            if self.children[i].is_named {
                return Some(&self.children[i]);
            }
        }
        None
    }

    /// The last child in source order, if any.
    pub fn last_child(&self) -> (r: Option<&SyntaxNode>)
        ensures
            r is Some <==> self.children@.len() > 0,
            r is Some ==> *r->0 == self.children@.last(),
    {
        let n = self.children.len();
        if n == 0 {
            None
        } else {
            Some(&self.children[n - 1])
        }
    }
}

} // verus!
