//! The tree walker: every node of a syntax tree is visited once, in document
//! order, and each extractor of the registry is offered each node.

use vstd::prelude::*;
use vstd::slice::slice_subrange;
use crate::store::{ExtractedData, ExtractedDataModel, RecordModel};
use crate::syntax::{lemma_children_view, lemma_trees, models, trees, SyntaxNode, SyntaxTree};
use crate::text::str_eq;

verus! {

/// An extractor turns the nodes of one kind into records of one category.
pub trait InfoExtractor {
    /// The kind of node that the extractor looks for.
    spec fn kind_tag(&self) -> Seq<char>;

    /// The record that the extractor derives from a node of its kind, which
    /// the siblings `preceding` come before, in the file `file_path` with the
    /// text `code`.
    spec fn record(
        &self,
        node: SyntaxTree,
        preceding: Seq<SyntaxTree>,
        code: Seq<char>,
        file_path: Seq<char>,
    ) -> RecordModel;

    /// Appends the record of `node` to the store where the node is of the
    /// extractor's kind, and leaves the store as it is where it is not.
    ///
    /// Every record shares one frame: it names the file that the extractor
    /// was given, starts where the node starts, and ends at the largest end
    /// offset among the node and its direct children.
    fn extract(
        &self,
        node: &SyntaxNode,
        preceding: &[SyntaxNode],
        code: &str,
        file_path: String,
        extracted_data_: &mut ExtractedData,
    )
        ensures
            final(extracted_data_).deep_view() == if node.deep_view().kind == self.kind_tag() {
                old(extracted_data_).deep_view().with(
                    self.record(node.deep_view(), trees(preceding@), code@, file_path@).framed(
                        file_path@,
                        node.deep_view().start_byte,
                        node.deep_view().extent_end(),
                    ),
                )
            } else {
                old(extracted_data_).deep_view()
            },
    ;

    /// The kind of node that the extractor looks for.
    fn node_kind(&self) -> (kind: &'static str)
        ensures
            kind@ == self.kind_tag(),
    ;
}

/// The record that `extractor` appends for `node`: the record that it
/// derives from the node, in the frame that all records share.
pub open spec fn appended<E: InfoExtractor + ?Sized>(
    extractor: &E,
    node: SyntaxTree,
    preceding: Seq<SyntaxTree>,
    code: Seq<char>,
    file_path: Seq<char>,
) -> RecordModel {
    extractor.record(node, preceding, code, file_path).framed(
        file_path,
        node.start_byte,
        node.extent_end(),
    )
}

/// The store after `extractor` was offered `node`: with the node's record
/// appended where the node is of the extractor's kind, unchanged otherwise.
pub open spec fn offer<E: InfoExtractor + ?Sized>(
    extractor: &E,
    node: SyntaxTree,
    preceding: Seq<SyntaxTree>,
    code: Seq<char>,
    file_path: Seq<char>,
    data: ExtractedDataModel,
) -> ExtractedDataModel {
    if node.kind == extractor.kind_tag() {
        data.with(appended(extractor, node, preceding, code, file_path))
    } else {
        data
    }
}

/// The store after each extractor of the registry, in order, was offered
/// `node`.
pub open spec fn visit(
    extractors: Seq<&dyn InfoExtractor>,
    node: SyntaxTree,
    preceding: Seq<SyntaxTree>,
    code: Seq<char>,
    file_path: Seq<char>,
    data: ExtractedDataModel,
) -> ExtractedDataModel
    decreases extractors.len(),
{
    if extractors.len() == 0 {
        data
    } else {
        offer(
            extractors.last(),
            node,
            preceding,
            code,
            file_path,
            visit(extractors.drop_last(), node, preceding, code, file_path, data),
        )
    }
}

/// The store after the subtree of `node` was walked: the node is visited
/// first, then its children are walked from first to last, whether or not an
/// extractor took the node.
pub open spec fn walk(
    extractors: Seq<&dyn InfoExtractor>,
    node: SyntaxTree,
    preceding: Seq<SyntaxTree>,
    code: Seq<char>,
    file_path: Seq<char>,
    data: ExtractedDataModel,
) -> ExtractedDataModel
    decreases node, 0nat,
{
    walk_children(
        extractors,
        node.children,
        node.children.len(),
        code,
        file_path,
        visit(extractors, node, preceding, code, file_path, data),
    )
}

/// The store after the subtrees of the first `count` nodes of `children`
/// were walked, one after the other.
pub open spec fn walk_children(
    extractors: Seq<&dyn InfoExtractor>,
    children: Seq<SyntaxTree>,
    count: nat,
    code: Seq<char>,
    file_path: Seq<char>,
    data: ExtractedDataModel,
) -> ExtractedDataModel
    decreases children, count,
{
    if count == 0 || count > children.len() {
        data
    } else {
        walk(
            extractors,
            children[count - 1],
            children.take(count - 1),
            code,
            file_path,
            walk_children(extractors, children, (count - 1) as nat, code, file_path, data),
        )
    }
}

/// A place in a tree: a node with the siblings that come before it.
pub ghost struct Site {
    pub node: SyntaxTree,
    pub preceding: Seq<SyntaxTree>,
}

/// The places of the subtree of `node` in document order: the node first,
/// then the places below its first child, and so on to its last child.
pub open spec fn sites(node: SyntaxTree, preceding: Seq<SyntaxTree>) -> Seq<Site>
    decreases node, 0nat,
{
    seq![Site { node, preceding }] + children_sites(node.children, node.children.len())
}

/// The places of the subtrees of the first `count` nodes of `children`, in
/// document order.
pub open spec fn children_sites(children: Seq<SyntaxTree>, count: nat) -> Seq<Site>
    decreases children, count,
{
    if count == 0 || count > children.len() {
        Seq::empty()
    } else {
        children_sites(children, (count - 1) as nat) + sites(
            children[count - 1],
            children.take(count - 1),
        )
    }
}

/// The store after the nodes at the places `places` were visited, one
/// after the other.
pub open spec fn visit_all(
    extractors: Seq<&dyn InfoExtractor>,
    places: Seq<Site>,
    code: Seq<char>,
    file_path: Seq<char>,
    data: ExtractedDataModel,
) -> ExtractedDataModel
    decreases places.len(),
{
    if places.len() == 0 {
        data
    } else {
        visit(
            extractors,
            places.last().node,
            places.last().preceding,
            code,
            file_path,
            visit_all(extractors, places.drop_last(), code, file_path, data),
        )
    }
}

/// Visiting places and then more places is visiting all of them in order.
pub proof fn lemma_visit_all_concat(
    extractors: Seq<&dyn InfoExtractor>,
    first: Seq<Site>,
    second: Seq<Site>,
    code: Seq<char>,
    file_path: Seq<char>,
    data: ExtractedDataModel,
)
    ensures
        visit_all(extractors, first + second, code, file_path, data) == visit_all(
            extractors,
            second,
            code,
            file_path,
            visit_all(extractors, first, code, file_path, data),
        ),
    decreases second.len(),
{
    if second.len() == 0 {
        assert(first + second == first);
    } else {
        assert((first + second).drop_last() == first + second.drop_last());
        assert((first + second).last() == second.last());
        lemma_visit_all_concat(extractors, first, second.drop_last(), code, file_path, data);
    }
}

/// The walk of a tree visits every place of the tree once, in document
/// order, whatever the extractors take.
pub proof fn lemma_walk_visits_in_document_order(
    extractors: Seq<&dyn InfoExtractor>,
    node: SyntaxTree,
    preceding: Seq<SyntaxTree>,
    code: Seq<char>,
    file_path: Seq<char>,
    data: ExtractedDataModel,
)
    ensures
        walk(extractors, node, preceding, code, file_path, data) == visit_all(
            extractors,
            sites(node, preceding),
            code,
            file_path,
            data,
        ),
    decreases node, 0nat,
{
    let here = seq![Site { node, preceding }];
    let below = children_sites(node.children, node.children.len());
    let visited = visit(extractors, node, preceding, code, file_path, data);
    lemma_walk_children_visits_in_document_order(
        extractors,
        node.children,
        node.children.len(),
        code,
        file_path,
        visited,
    );
    lemma_visit_all_concat(extractors, here, below, code, file_path, data);
    assert(here.drop_last() == Seq::<Site>::empty());
    assert(visit_all(extractors, Seq::<Site>::empty(), code, file_path, data) == data);
    assert(visit_all(extractors, here, code, file_path, data) == visited);
}

/// The walk of the first `count` of the trees `children` visits every
/// place of those trees once, in document order.
pub proof fn lemma_walk_children_visits_in_document_order(
    extractors: Seq<&dyn InfoExtractor>,
    children: Seq<SyntaxTree>,
    count: nat,
    code: Seq<char>,
    file_path: Seq<char>,
    data: ExtractedDataModel,
)
    requires
        count <= children.len(),
    ensures
        walk_children(extractors, children, count, code, file_path, data) == visit_all(
            extractors,
            children_sites(children, count),
            code,
            file_path,
            data,
        ),
    decreases children, count,
{
    if count > 0 {
        let before = walk_children(
            extractors,
            children,
            (count - 1) as nat,
            code,
            file_path,
            data,
        );
        lemma_walk_children_visits_in_document_order(
            extractors,
            children,
            (count - 1) as nat,
            code,
            file_path,
            data,
        );
        lemma_walk_visits_in_document_order(
            extractors,
            children[count - 1],
            children.take(count - 1),
            code,
            file_path,
            before,
        );
        lemma_visit_all_concat(
            extractors,
            children_sites(children, (count - 1) as nat),
            sites(children[count - 1], children.take(count - 1)),
            code,
            file_path,
            data,
        );
    }
}

/// The models of the first nodes of a sequence are the first of the models.
pub proof fn lemma_trees_take(nodes: Seq<SyntaxNode>, count: int)
    requires
        0 <= count <= nodes.len(),
    ensures
        trees(nodes.take(count)) == trees(nodes).take(count),
{
    lemma_trees(nodes);
    lemma_trees(nodes.take(count));
    assert(trees(nodes.take(count)) =~= trees(nodes).take(count));
}

/// Offers `node` to each extractor of the registry, in order.
pub fn extract_results(
    node: &SyntaxNode,
    preceding: &[SyntaxNode],
    code: &str,
    extractors: &[&dyn InfoExtractor],
    file_path: &String,
    extracted_data_: &mut ExtractedData,
)
    ensures
        final(extracted_data_).deep_view() == visit(
            extractors@,
            node.deep_view(),
            trees(preceding@),
            code@,
            file_path@,
            old(extracted_data_).deep_view(),
        ),
{
    let mut i: usize = 0;
    while i < extractors.len()
        invariant
            i <= extractors@.len(),
            extracted_data_.deep_view() == visit(
                extractors@.take(i as int),
                node.deep_view(),
                trees(preceding@),
                code@,
                file_path@,
                old(extracted_data_).deep_view(),
            ),
        decreases extractors@.len() - i,
    {
        let extractor = extractors[i];
        assert(extractors@.take(i + 1).drop_last() == extractors@.take(i as int));
        if str_eq(node.kind.as_str(), extractor.node_kind()) {
            extractor.extract(node, preceding, code, file_path.clone(), extracted_data_);
        }
        i = i + 1;
    }
    assert(extractors@.take(i as int) == extractors@);
}

/// Walks the subtree of `node`, which the siblings `preceding` come before.
fn traverse_from(
    node: &SyntaxNode,
    preceding: &[SyntaxNode],
    code: &str,
    extractors: &[&dyn InfoExtractor],
    file_path: &String,
    extracted_data_: &mut ExtractedData,
)
    ensures
        final(extracted_data_).deep_view() == walk(
            extractors@,
            node.deep_view(),
            trees(preceding@),
            code@,
            file_path@,
            old(extracted_data_).deep_view(),
        ),
    decreases node,
{
    extract_results(node, preceding, code, extractors, file_path, extracted_data_);
    proof {
        lemma_children_view(node);
    }
    let ghost children = node.deep_view().children;
    let ghost visited = extracted_data_.deep_view();
    let mut i: usize = 0;
    while i < node.children.len()
        invariant
            i <= node.children@.len(),
            children == node.deep_view().children,
            models(children, node.children@),
            children == trees(node.children@),
            extracted_data_.deep_view() == walk_children(
                extractors@,
                children,
                i as nat,
                code@,
                file_path@,
                visited,
            ),
        decreases node.children@.len() - i,
    {
        let before = slice_subrange(node.children.as_slice(), 0, i);
        proof {
            assert(before@ == node.children@.take(i as int));
            lemma_trees_take(node.children@, i as int);
        }
        traverse_from(&node.children[i], before, code, extractors, file_path, extracted_data_);
        i = i + 1;
    }
}

/// Walks the tree below `node`, depth first and in document order, and
/// offers every node in it, `node` first, to every extractor of the
/// registry.
///
/// A node that an extractor took is still descended into: what it holds
/// may be declarations in turn.
pub fn traverse_tree(
    node: &SyntaxNode,
    code: &str,
    extractors: &[&dyn InfoExtractor],
    file_path: String,
    extracted_data_: &mut ExtractedData,
)
    ensures
        final(extracted_data_).deep_view() == walk(
            extractors@,
            node.deep_view(),
            Seq::empty(),
            code@,
            file_path@,
            old(extracted_data_).deep_view(),
        ),
{
    let alone: Vec<SyntaxNode> = Vec::new();
    proof {
        lemma_trees(alone@);
        assert(trees(alone@) =~= Seq::empty());
    }
    traverse_from(node, alone.as_slice(), code, extractors, &file_path, extracted_data_);
}

} // verus!
