//! Parsing: from the text of a Rust source file to its syntax tree.
//!
//! The parsing itself is done by the `tree_sitter` crate with the grammar of
//! `tree_sitter_rust`. What this module takes on trust about them is stated
//! in the contracts of the items marked `external_body` below; the tree that
//! they hand out is then copied, node by node, into a [`SyntaxNode`] by
//! verified code.

use vstd::prelude::*;
use crate::syntax::{lemma_trees, trees, SyntaxNode, SyntaxTree};

verus! {

#[verifier::external_type_specification]
#[verifier::external_body]
pub struct ExNode<'tree>(tree_sitter::Node<'tree>);

#[verifier::external_type_specification]
#[verifier::external_body]
pub struct ExTree(tree_sitter::Tree);

#[verifier::external_type_specification]
#[verifier::external_body]
pub struct ExLanguageError(tree_sitter::LanguageError);

/// What a node of a parsed tree holds: its kind, the field name under
/// which its parent holds it, its byte range, and the same of every node
/// below it.
pub uninterp spec fn node_tree(node: tree_sitter::Node) -> SyntaxTree;

/// The root of a parsed tree, with everything below it.
pub uninterp spec fn tree_root(tree: tree_sitter::Tree) -> SyntaxTree;

/// The tree that the parser makes of a Rust source text, if it makes one.
pub uninterp spec fn parsed_rust(code: Seq<char>) -> Option<SyntaxTree>;

/// Why a source text could not be turned into a syntax tree.
#[derive(Clone, Copy, Debug, PartialEq, Eq, Structural)]
pub enum ParseError {
    /// The parser did not accept the Rust grammar.
    Grammar,
    /// The parser produced no tree for the text.
    NoTree,
    /// The tree holds a byte range that cannot be read as text of the source.
    Illegible,
}

/// The syntax tree of a Rust source text, its root in no field, if the
/// parser makes a tree of the text.
pub open spec fn rust_tree(code: Seq<char>) -> Option<SyntaxTree> {
    match parsed_rust(code) {
        Some(root) => Some(held_in(root, None)),
        None => None,
    }
}

/// Calls `Parser::new`, `Parser::set_language` with the Rust grammar and
/// `Parser::parse` of `tree_sitter`.
///
/// Trusted: a fresh parser with the Rust grammar makes of a text, whenever
/// it is asked, the same tree or no tree. Nothing is claimed of a parser
/// that does not accept the grammar.
#[verifier::external_body]
fn parse_rust(code: &str) -> (outcome: Result<
    Option<tree_sitter::Tree>,
    tree_sitter::LanguageError,
>)
    ensures
        outcome matches Ok(Some(tree)) ==> parsed_rust(code@) == Some(tree_root(tree)),
        outcome matches Ok(None) ==> parsed_rust(code@) is None,
{
    let mut parser = tree_sitter::Parser::new();
    parser.set_language(&tree_sitter_rust::LANGUAGE.into())?;
    Ok(parser.parse(code, None))
}

/// Calls `Tree::root_node` of `tree_sitter`.
///
/// Trusted: the node handed out is the root of the tree.
#[verifier::external_body]
fn root_node<'tree>(tree: &'tree tree_sitter::Tree) -> (node: tree_sitter::Node<'tree>)
    ensures
        node_tree(node) == tree_root(*tree),
{
    tree.root_node()
}

/// Calls `Node::kind` of `tree_sitter`.
///
/// Trusted: the string handed out is the node's kind.
#[verifier::external_body]
fn node_kind(node: &tree_sitter::Node) -> (kind: String)
    ensures
        kind@ == node_tree(*node).kind,
{
    node.kind().to_string()
}

/// Calls `Node::start_byte` of `tree_sitter`.
///
/// Trusted: the offset handed out is where the node's byte range starts.
#[verifier::external_body]
fn node_start_byte(node: &tree_sitter::Node) -> (offset: usize)
    ensures
        offset == node_tree(*node).start_byte,
{
    node.start_byte()
}

/// Calls `Node::end_byte` of `tree_sitter`.
///
/// Trusted: the offset handed out is where the node's byte range ends.
#[verifier::external_body]
fn node_end_byte(node: &tree_sitter::Node) -> (offset: usize)
    ensures
        offset == node_tree(*node).end_byte,
{
    node.end_byte()
}

/// Calls `Node::child_count` of `tree_sitter`.
///
/// Trusted: the number handed out is the number of the node's children.
#[verifier::external_body]
fn node_child_count(node: &tree_sitter::Node) -> (count: u32)
    ensures
        count == node_tree(*node).children.len(),
{
    node.child_count()
}

/// Calls `Node::child` of `tree_sitter`.
///
/// Trusted: for a position below the number of children, the node handed
/// out is the child at that position.
#[verifier::external_body]
fn node_child<'tree>(node: &tree_sitter::Node<'tree>, position: u32) -> (child: Option<
    tree_sitter::Node<'tree>,
>)
    ensures
        position < node_tree(*node).children.len() ==> child is Some && node_tree(child->0)
            == node_tree(*node).children[position as int],
{
    node.child(position)
}

/// Calls `Node::field_name_for_child` of `tree_sitter`.
///
/// Trusted: for a position below the number of children, the name handed
/// out is the field under which the node holds the child at that position,
/// and nothing is handed out where the child is in no field.
#[verifier::external_body]
fn node_field_name_for_child(node: &tree_sitter::Node, position: u32) -> (name: Option<String>)
    ensures
        position < node_tree(*node).children.len() ==> name.deep_view() == node_tree(
            *node,
        ).children[position as int].field_name,
{
    node.field_name_for_child(position).map(|name| name.to_string())
}

/// The tree `tree` as a node that its parent holds in the field
/// `field_name`.
pub open spec fn held_in(tree: SyntaxTree, field_name: Option<Seq<char>>) -> SyntaxTree {
    SyntaxTree { field_name, ..tree }
}

/// Copies the subtree of `node` into a tree of plain values; `field_name`
/// is the field under which the node's parent holds it.
pub fn lift(node: &tree_sitter::Node, field_name: Option<String>) -> (out: SyntaxNode)
    ensures
        out.deep_view() == held_in(node_tree(*node), field_name.deep_view()),
    decreases node_tree(*node),
{
    let ghost tree = node_tree(*node);
    let count = node_child_count(node);
    let mut children: Vec<SyntaxNode> = Vec::new();
    let mut position: u32 = 0;
    while position < count
        invariant
            tree == node_tree(*node),
            count == tree.children.len(),
            position <= count,
            children@.len() == position,
            forall|i: int|
                0 <= i < position ==> (#[trigger] children@[i]).deep_view() == tree.children[i],
        decreases count - position,
    {
        match node_child(node, position) {
            Some(child) => {
                let name = node_field_name_for_child(node, position);
                let copy = lift(&child, name);
                children.push(copy);
            },
            None => {},
        }
        position = position + 1;
    }
    let out = SyntaxNode {
        kind: node_kind(node),
        field_name,
        start_byte: node_start_byte(node),
        end_byte: node_end_byte(node),
        children,
    };
    proof {
        lemma_trees(out.children@);
        assert(trees(out.children@) =~= tree.children);
    }
    out
}

/// Turns what the parser handed out into a syntax tree of plain values:
/// the copy of a tree's root, in no field, where there is a tree; `NoTree`
/// where the parser made none; `Grammar` where it did not accept the grammar.
pub fn lift_outcome(
    outcome: Result<Option<tree_sitter::Tree>, tree_sitter::LanguageError>,
) -> (lifted: Result<SyntaxNode, ParseError>)
    ensures
        match outcome {
            Ok(Some(tree)) => lifted is Ok && lifted->Ok_0.deep_view() == held_in(
                tree_root(tree),
                None,
            ),
            Ok(None) => lifted == Err::<SyntaxNode, ParseError>(ParseError::NoTree),
            Err(_) => lifted == Err::<SyntaxNode, ParseError>(ParseError::Grammar),
        },
{
    match outcome {
        Ok(Some(tree)) => {
            let root = root_node(&tree);
            Ok(lift(&root, None))
        },
        Ok(None) => Err(ParseError::NoTree),
        Err(_) => Err(ParseError::Grammar),
    }
}

/// Parses a Rust source text into its syntax tree.
///
/// The tree is the one that the parser makes of the text, its root in no
/// field. `NoTree` is returned where the parser makes none, `Grammar` where
/// it does not accept the grammar.
pub fn parse_source(code: &str) -> (outcome: Result<SyntaxNode, ParseError>)
    ensures
        outcome matches Ok(root) ==> rust_tree(code@) == Some(root.deep_view()),
        outcome matches Err(error) ==> error != ParseError::Illegible,
        outcome matches Err(ParseError::NoTree) ==> rust_tree(code@) is None,
{
    lift_outcome(parse_rust(code))
}

} // verus!
