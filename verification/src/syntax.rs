//! The syntax tree that the index is computed from.
//!
//! A [`SyntaxNode`] holds, as plain values, what an incremental parser tells
//! about one node: its kind tag, the field name under which its parent holds
//! it, its byte range and its children in document order. Its mathematical
//! model is a [`SyntaxTree`].

use vstd::prelude::*;
use crate::text::{read_text, slice_text, str_eq};

verus! {

/// One node of a parsed syntax tree, with the subtree below it.
pub struct SyntaxNode {
    /// The parser's label for the construct.
    pub kind: String,
    /// The field of the parent that holds this node, if the grammar names one.
    pub field_name: Option<String>,
    /// Byte offset of the first byte of the node.
    pub start_byte: usize,
    /// Byte offset one past the last byte of the node.
    pub end_byte: usize,
    /// The direct children, in document order.
    pub children: Vec<SyntaxNode>,
}

/// The mathematical model of a [`SyntaxNode`].
pub ghost struct SyntaxTree {
    pub kind: Seq<char>,
    pub field_name: Option<Seq<char>>,
    pub start_byte: usize,
    pub end_byte: usize,
    pub children: Seq<SyntaxTree>,
}

impl DeepView for SyntaxNode {
    type V = SyntaxTree;

    open spec fn deep_view(&self) -> SyntaxTree {
        tree_of(*self)
    }
}

/// The model of a node: its own values and the models of its children.
pub open spec fn tree_of(node: SyntaxNode) -> SyntaxTree
    decreases node,
{
    SyntaxTree {
        kind: node.kind@,
        field_name: match node.field_name {
            Some(name) => Some(name@),
            None => None,
        },
        start_byte: node.start_byte,
        end_byte: node.end_byte,
        children: trees(node.children@),
    }
}

/// The models of a sequence of nodes.
pub open spec fn trees(nodes: Seq<SyntaxNode>) -> Seq<SyntaxTree>
    decreases nodes,
{
    if nodes.len() == 0 {
        Seq::empty()
    } else {
        trees(nodes.drop_last()).push(tree_of(nodes.last()))
    }
}

/// Whether `children` lists the models of `nodes`, position by position.
pub open spec fn models(children: Seq<SyntaxTree>, nodes: Seq<SyntaxNode>) -> bool {
    &&& children.len() == nodes.len()
    &&& forall|i: int| 0 <= i < nodes.len() ==> #[trigger] children[i] == nodes[i].deep_view()
}

/// The models of a sequence of nodes stand at the nodes' positions.
pub proof fn lemma_trees(nodes: Seq<SyntaxNode>)
    ensures
        models(trees(nodes), nodes),
    decreases nodes.len(),
{
    if nodes.len() > 0 {
        lemma_trees(nodes.drop_last());
    }
}

impl SyntaxTree {
    /// The source text that the node spans, where its range can be read.
    pub open spec fn text(self, code: Seq<char>) -> Option<Seq<char>> {
        slice_text(code, self.start_byte as int, self.end_byte as int)
    }

    /// The largest end offset among the node and its direct children.
    pub open spec fn extent_end(self) -> usize {
        max_end(self.children, self.end_byte)
    }

    /// Whether `node` is this node or stands anywhere below it.
    pub open spec fn holds_node(self, node: SyntaxTree) -> bool
        decreases self,
    {
        self == node || exists|i: int|
            0 <= i < self.children.len() && (#[trigger] self.children[i]).holds_node(node)
    }

    /// Whether the byte range of every node of the tree can be read as
    /// text of `code`.
    pub open spec fn legible(self, code: Seq<char>) -> bool {
        forall|node: SyntaxTree| #[trigger] self.holds_node(node) ==> node.text(code) is Some
    }
}

/// The largest end offset among `floor` and the nodes of `children`.
pub open spec fn max_end(children: Seq<SyntaxTree>, floor: usize) -> usize
    decreases children.len(),
{
    if children.len() == 0 {
        floor
    } else {
        let before = max_end(children.drop_last(), floor);
        if children.last().end_byte > before {
            children.last().end_byte
        } else {
            before
        }
    }
}

/// Whether some node of `children` has the kind `kind`.
pub open spec fn has_kind(children: Seq<SyntaxTree>, kind: Seq<char>) -> bool {
    exists|i: int| 0 <= i < children.len() && (#[trigger] children[i]).kind == kind
}

/// The position of the last node of `children` that has the kind `kind`.
pub open spec fn last_of_kind(children: Seq<SyntaxTree>, kind: Seq<char>) -> Option<int>
    decreases children.len(),
{
    if children.len() == 0 {
        None
    } else if children.last().kind == kind {
        Some(children.len() - 1)
    } else {
        last_of_kind(children.drop_last(), kind)
    }
}

/// The position of the first node of `children` that its parent holds in
/// the field `name`.
pub open spec fn first_in_field(children: Seq<SyntaxTree>, name: Seq<char>) -> Option<int>
    decreases children.len(),
{
    if children.len() == 0 {
        None
    } else {
        match first_in_field(children.drop_last(), name) {
            Some(i) => Some(i),
            None => if children.last().field_name == Some(name) {
                Some(children.len() - 1)
            } else {
                None
            },
        }
    }
}

/// The node at an optional position.
pub open spec fn node_at(children: Seq<SyntaxTree>, position: Option<int>) -> Option<SyntaxTree> {
    match position {
        Some(i) => Some(children[i]),
        None => None,
    }
}

/// The last node of `children` that has the kind `kind`.
pub open spec fn last_child_of_kind(children: Seq<SyntaxTree>, kind: Seq<char>) -> Option<
    SyntaxTree,
> {
    node_at(children, last_of_kind(children, kind))
}

/// The first node of `children` held in the field `name`.
pub open spec fn child_in_field(children: Seq<SyntaxTree>, name: Seq<char>) -> Option<
    SyntaxTree,
> {
    node_at(children, first_in_field(children, name))
}

/// The model of a node lists its children's models in order.
pub proof fn lemma_children_view(node: &SyntaxNode)
    ensures
        node.deep_view().children == trees(node.children@),
        models(node.deep_view().children, node.children@),
{
    lemma_trees(node.children@);
}

/// `last_of_kind` finds a node of the kind after which no other follows, and
/// finds nothing only where there is none.
pub proof fn lemma_last_of_kind(children: Seq<SyntaxTree>, kind: Seq<char>)
    ensures
        match last_of_kind(children, kind) {
            Some(i) => {
                &&& 0 <= i < children.len()
                &&& children[i].kind == kind
                &&& forall|j: int| i < j < children.len() ==> (#[trigger] children[j]).kind != kind
            },
            None => !has_kind(children, kind),
        },
    decreases children.len(),
{
    if children.len() > 0 && children.last().kind != kind {
        let front = children.drop_last();
        lemma_last_of_kind(front, kind);
        match last_of_kind(front, kind) {
            Some(i) => {
                assert(children[i] == front[i]);
                assert forall|j: int| i < j < children.len() implies (#[trigger] children[j]).kind
                    != kind by {
                    if j < front.len() {
                        assert(front[j] == children[j]);
                    }
                }
            },
            None => {
                assert forall|j: int| 0 <= j < children.len() implies (#[trigger] children[j]).kind
                    != kind by {
                    if j < front.len() {
                        assert(front[j] == children[j]);
                    }
                }
            },
        }
    }
}

/// `first_in_field` finds a node in the field before which no other stands,
/// and finds nothing only where there is none.
pub proof fn lemma_first_in_field(children: Seq<SyntaxTree>, name: Seq<char>)
    ensures
        match first_in_field(children, name) {
            Some(i) => {
                &&& 0 <= i < children.len()
                &&& children[i].field_name == Some(name)
                &&& forall|j: int| 0 <= j < i ==> (#[trigger] children[j]).field_name != Some(name)
            },
            None => forall|j: int|
                0 <= j < children.len() ==> (#[trigger] children[j]).field_name != Some(name),
        },
    decreases children.len(),
{
    if children.len() > 0 {
        let front = children.drop_last();
        lemma_first_in_field(front, name);
        match first_in_field(front, name) {
            Some(i) => {
                assert(children[i] == front[i]);
                assert forall|j: int| 0 <= j < i implies (#[trigger] children[j]).field_name
                    != Some(name) by {
                    assert(front[j] == children[j]);
                }
            },
            None => {
                assert forall|j: int| 0 <= j < front.len() implies (#[trigger] children[j]).field_name
                    != Some(name) by {
                    assert(front[j] == children[j]);
                }
            },
        }
    }
}

/// A position at which a node of the kind stands, with none of the kind
/// after it, is what `last_of_kind` finds.
pub proof fn lemma_last_of_kind_is(children: Seq<SyntaxTree>, kind: Seq<char>, i: int)
    requires
        0 <= i < children.len(),
        children[i].kind == kind,
        forall|j: int| i < j < children.len() ==> (#[trigger] children[j]).kind != kind,
    ensures
        last_of_kind(children, kind) == Some(i),
{
    lemma_last_of_kind(children, kind);
    let found = last_of_kind(children, kind);
    if found is None {
        assert(children[i].kind == kind);
    } else {
        let k = found->0;
        if k < i {
            assert(children[i].kind == kind);
        } else if k > i {
            assert(children[k].kind == kind);
        }
    }
}

/// A position at which a node in the field stands, with none in the field
/// before it, is what `first_in_field` finds.
pub proof fn lemma_first_in_field_is(children: Seq<SyntaxTree>, name: Seq<char>, i: int)
    requires
        0 <= i < children.len(),
        children[i].field_name == Some(name),
        forall|j: int| 0 <= j < i ==> (#[trigger] children[j]).field_name != Some(name),
    ensures
        first_in_field(children, name) == Some(i),
{
    lemma_first_in_field(children, name);
    let found = first_in_field(children, name);
    if found is None {
        assert(children[i].field_name == Some(name));
    } else {
        let k = found->0;
        if k < i {
            assert(children[k].field_name == Some(name));
        } else if k > i {
            assert(children[i].field_name == Some(name));
        }
    }
}

/// What stands below a node of a tree stands in the tree.
pub proof fn lemma_holds_node_transitive(tree: SyntaxTree, middle: SyntaxTree, node: SyntaxTree)
    requires
        tree.holds_node(middle),
        middle.holds_node(node),
    ensures
        tree.holds_node(node),
    decreases tree,
{
    if tree != middle {
        let i = choose|i: int|
            0 <= i < tree.children.len() && (#[trigger] tree.children[i]).holds_node(middle);
        lemma_holds_node_transitive(tree.children[i], middle, node);
    }
}

/// No end offset among the children lies beyond the extent's end, which is
/// itself the end of the node or of one of them.
pub proof fn lemma_max_end(children: Seq<SyntaxTree>, floor: usize)
    ensures
        floor <= max_end(children, floor),
        forall|i: int| 0 <= i < children.len() ==> (#[trigger] children[i]).end_byte <= max_end(
            children,
            floor,
        ),
        max_end(children, floor) == floor || exists|i: int|
            0 <= i < children.len() && (#[trigger] children[i]).end_byte == max_end(
                children,
                floor,
            ),
    decreases children.len(),
{
    if children.len() > 0 {
        let front = children.drop_last();
        lemma_max_end(front, floor);
        assert forall|i: int| 0 <= i < children.len() implies (#[trigger] children[i]).end_byte
            <= max_end(children, floor) by {
            if i < front.len() {
                assert(front[i] == children[i]);
            }
        }
        let before = max_end(front, floor);
        if children.last().end_byte > before {
            assert(children[children.len() - 1].end_byte == max_end(children, floor));
        } else if before != floor {
            let i = choose|i: int| 0 <= i < front.len() && (#[trigger] front[i]).end_byte == before;
            assert(children[i] == front[i]);
        }
    }
}

impl SyntaxNode {
    /// A node of the kind `kind` that spans the bytes `start_byte..end_byte`,
    /// holds `children` and is itself in no field.
    pub fn new(kind: &str, start_byte: usize, end_byte: usize, children: Vec<SyntaxNode>) -> (node:
        SyntaxNode)
        ensures
            node.deep_view() == (SyntaxTree {
                kind: kind@,
                field_name: None,
                start_byte,
                end_byte,
                children: trees(children@),
            }),
    {
        SyntaxNode { kind: kind.to_owned(), field_name: None, start_byte, end_byte, children }
    }

    /// The same node, held by its parent in the field `name`.
    pub fn in_field(self, name: &str) -> (node: SyntaxNode)
        ensures
            node.deep_view() == (SyntaxTree { field_name: Some(name@), ..self.deep_view() }),
    {
        SyntaxNode {
            kind: self.kind,
            field_name: Some(name.to_owned()),
            start_byte: self.start_byte,
            end_byte: self.end_byte,
            children: self.children,
        }
    }

    /// Whether the node has the kind `kind`.
    pub fn is_kind(&self, kind: &str) -> (r: bool)
        ensures
            r == (self.deep_view().kind == kind@),
    {
        str_eq(self.kind.as_str(), kind)
    }

    /// Whether the parent holds the node in the field `name`.
    pub fn is_in_field(&self, name: &str) -> (r: bool)
        ensures
            r == (self.deep_view().field_name == Some(name@)),
    {
        match &self.field_name {
            Some(own) => str_eq(own.as_str(), name),
            None => false,
        }
    }

    /// The source text that the node spans, where its range can be read.
    pub fn text(&self, code: &str) -> (text: Option<String>)
        ensures
            text.deep_view() == self.deep_view().text(code@),
    {
        read_text(code, self.start_byte, self.end_byte)
    }

    /// The largest end offset among the node and its direct children.
    pub fn extent_end(&self) -> (end: usize)
        ensures
            end == self.deep_view().extent_end(),
    {
        proof {
            lemma_children_view(self);
        }
        let ghost children = self.deep_view().children;
        let mut end = self.end_byte;
        let mut i: usize = 0;
        while i < self.children.len()
            invariant
                i <= self.children@.len(),
                children == self.deep_view().children,
                models(children, self.children@),
                end == max_end(children.take(i as int), self.end_byte),
            decreases self.children@.len() - i,
        {
            assert(children.take(i + 1).drop_last() == children.take(i as int));
            if self.children[i].end_byte > end {
                end = self.children[i].end_byte;
            }
            i = i + 1;
        }
        assert(children.take(i as int) == children);
        end
    }

    /// Whether a direct child has the kind `kind`.
    pub fn has_child_of_kind(&self, kind: &str) -> (r: bool)
        ensures
            r == has_kind(self.deep_view().children, kind@),
    {
        proof {
            lemma_children_view(self);
        }
        let ghost children = self.deep_view().children;
        let mut i: usize = 0;
        while i < self.children.len()
            invariant
                i <= self.children@.len(),
                children == self.deep_view().children,
                models(children, self.children@),
                forall|j: int| 0 <= j < i ==> (#[trigger] children[j]).kind != kind@,
            decreases self.children@.len() - i,
        {
            if self.children[i].is_kind(kind) {
                assert(children[i as int].kind == kind@);
                return true;
            }
            i = i + 1;
        }
        false
    }

    /// The position of the last direct child that has the kind `kind`.
    pub fn last_index_of_kind(&self, kind: &str) -> (found: Option<usize>)
        ensures
            match found {
                Some(i) => last_of_kind(self.deep_view().children, kind@) == Some(i as int) && i
                    < self.children@.len(),
                None => last_of_kind(self.deep_view().children, kind@) is None,
            },
    {
        proof {
            lemma_children_view(self);
        }
        let ghost children = self.deep_view().children;
        let mut i: usize = self.children.len();
        assert(children.take(i as int) == children);
        while i > 0
            invariant
                i <= self.children@.len(),
                children == self.deep_view().children,
                models(children, self.children@),
                last_of_kind(children, kind@) == last_of_kind(children.take(i as int), kind@),
            decreases i,
        {
            assert(children.take(i as int).drop_last() == children.take(i - 1));
            if self.children[i - 1].is_kind(kind) {
                return Some(i - 1);
            }
            i = i - 1;
        }
        None
    }

    /// The last direct child that has the kind `kind`.
    pub fn last_child_of_kind(&self, kind: &str) -> (found: Option<&SyntaxNode>)
        ensures
            found.deep_view() == last_child_of_kind(self.deep_view().children, kind@),
    {
        proof {
            lemma_children_view(self);
        }
        match self.last_index_of_kind(kind) {
            Some(i) => Some(&self.children[i]),
            None => None,
        }
    }

    /// The first direct child that the node holds in the field `name`.
    pub fn child_by_field_name(&self, name: &str) -> (found: Option<&SyntaxNode>)
        ensures
            found.deep_view() == child_in_field(self.deep_view().children, name@),
    {
        proof {
            lemma_children_view(self);
        }
        let ghost children = self.deep_view().children;
        let mut i: usize = 0;
        while i < self.children.len()
            invariant
                i <= self.children@.len(),
                children == self.deep_view().children,
                models(children, self.children@),
                forall|j: int| 0 <= j < i ==> (#[trigger] children[j]).field_name != Some(name@),
            decreases self.children@.len() - i,
        {
            if self.children[i].is_in_field(name) {
                proof {
                    lemma_first_in_field_is(children, name@, i as int);
                }
                return Some(&self.children[i]);
            }
            i = i + 1;
        }
        proof {
            lemma_first_in_field(children, name@);
        }
        None
    }

    /// Whether the byte range of every node of the tree can be read as
    /// text of `code`.
    pub fn is_legible(&self, code: &str) -> (legible: bool)
        ensures
            legible == self.deep_view().legible(code@),
        decreases self,
    {
        proof {
            lemma_children_view(self);
        }
        let ghost tree = self.deep_view();
        if self.text(code).is_none() {
            assert(tree.holds_node(tree));
            return false;
        }
        let mut i: usize = 0;
        while i < self.children.len()
            invariant
                i <= self.children@.len(),
                tree == self.deep_view(),
                models(tree.children, self.children@),
                tree.text(code@) is Some,
                forall|j: int| 0 <= j < i ==> (#[trigger] tree.children[j]).legible(code@),
            decreases self.children@.len() - i,
        {
            if !self.children[i].is_legible(code) {
                proof {
                    let child = tree.children[i as int];
                    let node = choose|node: SyntaxTree|
                        child.holds_node(node) && node.text(code@) is None;
                    assert(tree.holds_node(node));
                }
                return false;
            }
            i = i + 1;
        }
        proof {
            assert forall|node: SyntaxTree| #[trigger] tree.holds_node(node) implies node.text(
                code@,
            ) is Some by {
                if node != tree {
                    let j = choose|j: int|
                        0 <= j < tree.children.len() && (#[trigger] tree.children[j]).holds_node(
                            node,
                        );
                    assert(tree.children[j].legible(code@));
                }
            }
        }
        true
    }
}

} // verus!
