//! What holds of the index, whatever the input.

use vstd::prelude::*;
use crate::index::{indexed, indexed_files, indexed_source};
use crate::kinds::{FIELD_DECLARATION_LIST, ORDERED_FIELD_DECLARATION_LIST, TYPE_IDENTIFIER};
use crate::parse::rust_tree;
use crate::records::EnumVariantTypeModel;
use crate::rules;
use crate::store::{ExtractedDataModel, RecordModel, SourceText};
use crate::syntax::{
    lemma_holds_node_transitive, lemma_last_of_kind_is, lemma_max_end, SyntaxTree,
};
use crate::text::slice_text;
use crate::traverse::{appended, visit, walk, walk_children, InfoExtractor};

verus! {

/// Whether `record` is what an extractor of the registry derives from a
/// node of its kind that stands in the tree `root`.
pub open spec fn derived_from(
    extractors: Seq<&dyn InfoExtractor>,
    root: SyntaxTree,
    code: Seq<char>,
    file_path: Seq<char>,
    record: RecordModel,
) -> bool {
    exists|i: int, node: SyntaxTree, preceding: Seq<SyntaxTree>|
        {
            &&& 0 <= i < extractors.len()
            &&& root.holds_node(node)
            &&& node.kind == extractors[i].kind_tag()
            &&& record == #[trigger] appended(extractors[i], node, preceding, code, file_path)
        }
}

/// Whether two sequences of files hold the same paths and texts.
pub open spec fn same_files(first: Seq<SourceText>, second: Seq<SourceText>) -> bool {
    &&& first.len() == second.len()
    &&& forall|i: int|
        0 <= i < first.len() ==> (#[trigger] first[i]).path@ == second[i].path@ && first[i].text@
            == second[i].text@
}

/// A sequence with one more element holds what it held and that element.
proof fn lemma_push_contains<A>(s: Seq<A>, x: A, y: A)
    ensures
        s.push(x).contains(y) <==> (s.contains(y) || y == x),
{
    if s.push(x).contains(y) {
        let i = choose|i: int| 0 <= i < s.push(x).len() && s.push(x)[i] == y;
        if i < s.len() {
            assert(s[i] == y);
        }
    }
    if s.contains(y) {
        let i = choose|i: int| 0 <= i < s.len() && s[i] == y;
        assert(s.push(x)[i] == y);
    }
    if y == x {
        assert(s.push(x)[s.len() as int] == y);
    }
}

/// A store with one more record holds what it held and that record, and
/// the same texts.
pub proof fn lemma_with_holds(data: ExtractedDataModel, record: RecordModel, other: RecordModel)
    ensures
        data.with(record).holds(other) <==> (data.holds(other) || other == record),
        data.with(record).file_contents == data.file_contents,
{
    match (record, other) {
        (RecordModel::Struct(r), RecordModel::Struct(o)) => lemma_push_contains(data.structs, r, o),
        (RecordModel::Function(r), RecordModel::Function(o)) => lemma_push_contains(
            data.functions,
            r,
            o,
        ),
        (RecordModel::TypeAlias(r), RecordModel::TypeAlias(o)) => lemma_push_contains(
            data.type_aliases,
            r,
            o,
        ),
        (RecordModel::Impl(r), RecordModel::Impl(o)) => lemma_push_contains(data.impls, r, o),
        (RecordModel::UseDependency(r), RecordModel::UseDependency(o)) => lemma_push_contains(
            data.use_dependencies,
            r,
            o,
        ),
        (RecordModel::Mod(r), RecordModel::Mod(o)) => lemma_push_contains(data.mods, r, o),
        (RecordModel::Enum(r), RecordModel::Enum(o)) => lemma_push_contains(data.enums, r, o),
        (RecordModel::Macro(r), RecordModel::Macro(o)) => lemma_push_contains(data.macros, r, o),
        _ => {},
    }
}

/// Appending a record makes the store one record larger.
pub proof fn lemma_with_adds_one_record(data: ExtractedDataModel, record: RecordModel)
    ensures
        data.with(record).count() == data.count() + 1,
{
}

/// A visit of a node leaves the texts alone, and a record that the store
/// holds after it was held before or is the record that an extractor of the
/// node's kind derives from the node.
pub proof fn lemma_visit_provenance(
    extractors: Seq<&dyn InfoExtractor>,
    node: SyntaxTree,
    preceding: Seq<SyntaxTree>,
    code: Seq<char>,
    file_path: Seq<char>,
    data: ExtractedDataModel,
    record: RecordModel,
)
    ensures
        visit(extractors, node, preceding, code, file_path, data).file_contents
            == data.file_contents,
        visit(extractors, node, preceding, code, file_path, data).holds(record) ==> data.holds(
            record,
        ) || exists|i: int|
            0 <= i < extractors.len() && node.kind == extractors[i].kind_tag() && record
                == #[trigger] appended(extractors[i], node, preceding, code, file_path),
    decreases extractors.len(),
{
    if extractors.len() > 0 {
        let front = extractors.drop_last();
        let before = visit(front, node, preceding, code, file_path, data);
        lemma_visit_provenance(front, node, preceding, code, file_path, data, record);
        let last = extractors.last();
        if node.kind == last.kind_tag() {
            lemma_with_holds(before, appended(last, node, preceding, code, file_path), record);
        }
        if visit(extractors, node, preceding, code, file_path, data).holds(record) && !data.holds(
            record,
        ) {
            if before.holds(record) {
                let i = choose|i: int|
                    0 <= i < front.len() && node.kind == front[i].kind_tag() && record
                        == #[trigger] appended(front[i], node, preceding, code, file_path);
                assert(extractors[i] == front[i]);
                assert(record == appended(extractors[i], node, preceding, code, file_path));
            } else {
                let i = extractors.len() - 1;
                assert(record == appended(extractors[i], node, preceding, code, file_path));
            }
        }
    }
}

/// A walk of a tree leaves the texts alone, and a record that the store
/// holds after it was held before or is derived from a node of the tree.
pub proof fn lemma_walk_provenance(
    extractors: Seq<&dyn InfoExtractor>,
    node: SyntaxTree,
    preceding: Seq<SyntaxTree>,
    code: Seq<char>,
    file_path: Seq<char>,
    data: ExtractedDataModel,
    record: RecordModel,
)
    ensures
        walk(extractors, node, preceding, code, file_path, data).file_contents
            == data.file_contents,
        walk(extractors, node, preceding, code, file_path, data).holds(record) ==> data.holds(
            record,
        ) || derived_from(extractors, node, code, file_path, record),
    decreases node, 0nat,
{
    let visited = visit(extractors, node, preceding, code, file_path, data);
    lemma_visit_provenance(extractors, node, preceding, code, file_path, data, record);
    lemma_walk_children_provenance(
        extractors,
        node.children,
        node.children.len(),
        code,
        file_path,
        visited,
        record,
    );
    if walk(extractors, node, preceding, code, file_path, data).holds(record) && !data.holds(
        record,
    ) {
        if visited.holds(record) {
            let i = choose|i: int|
                0 <= i < extractors.len() && node.kind == extractors[i].kind_tag() && record
                    == #[trigger] appended(extractors[i], node, preceding, code, file_path);
            assert(node.holds_node(node));
            assert(record == appended(extractors[i], node, preceding, code, file_path));
        } else {
            let k = choose|k: int|
                0 <= k < node.children.len() && derived_from(
                    extractors,
                    #[trigger] node.children[k],
                    code,
                    file_path,
                    record,
                );
            let (i, inner, before) = choose|i: int, inner: SyntaxTree, before: Seq<SyntaxTree>|
                {
                    &&& 0 <= i < extractors.len()
                    &&& node.children[k].holds_node(inner)
                    &&& inner.kind == extractors[i].kind_tag()
                    &&& record == #[trigger] appended(extractors[i], inner, before, code, file_path)
                };
            assert(node.children[k].holds_node(inner));
            assert(node.holds_node(inner));
            assert(record == appended(extractors[i], inner, before, code, file_path));
        }
    }
}

/// A walk of the first `count` of the trees `children` leaves the texts
/// alone, and a record that the store holds after it was held before or is
/// derived from a node of one of those trees.
pub proof fn lemma_walk_children_provenance(
    extractors: Seq<&dyn InfoExtractor>,
    children: Seq<SyntaxTree>,
    count: nat,
    code: Seq<char>,
    file_path: Seq<char>,
    data: ExtractedDataModel,
    record: RecordModel,
)
    requires
        count <= children.len(),
    ensures
        walk_children(extractors, children, count, code, file_path, data).file_contents
            == data.file_contents,
        walk_children(extractors, children, count, code, file_path, data).holds(record)
            ==> data.holds(record) || exists|k: int|
            0 <= k < count && derived_from(
                extractors,
                #[trigger] children[k],
                code,
                file_path,
                record,
            ),
    decreases children, count,
{
    if count > 0 {
        let before = walk_children(
            extractors,
            children,
            (count - 1) as nat,
            code,
            file_path,
            data,
        );
        lemma_walk_children_provenance(
            extractors,
            children,
            (count - 1) as nat,
            code,
            file_path,
            data,
            record,
        );
        lemma_walk_provenance(
            extractors,
            children[count - 1],
            children.take(count - 1),
            code,
            file_path,
            before,
            record,
        );
        if walk_children(extractors, children, count, code, file_path, data).holds(record)
            && !data.holds(record) {
            if before.holds(record) {
                let k = choose|k: int|
                    0 <= k < count - 1 && derived_from(
                        extractors,
                        #[trigger] children[k],
                        code,
                        file_path,
                        record,
                    );
                assert(derived_from(extractors, children[k], code, file_path, record));
            } else {
                assert(derived_from(extractors, children[count - 1], code, file_path, record));
            }
        }
    }
}

/// Records come only from the file that is indexed: after a file was
/// indexed, the store holds its text and the texts that it held, and each of
/// its records was held before or is derived from a node of the file's tree.
pub proof fn lemma_indexed_provenance(
    extractors: Seq<&dyn InfoExtractor>,
    root: SyntaxTree,
    code: Seq<char>,
    file_path: Seq<char>,
    data: ExtractedDataModel,
    record: RecordModel,
)
    ensures
        indexed(extractors, root, code, file_path, data).file_contents
            == data.file_contents.insert(file_path, code),
        indexed(extractors, root, code, file_path, data).holds(record) ==> data.holds(record)
            || derived_from(extractors, root, code, file_path, record),
{
    lemma_walk_provenance(
        extractors,
        root,
        Seq::empty(),
        code,
        file_path,
        data.with_text(file_path, code),
        record,
    );
}

/// The text of every record's file is held: indexing a file keeps a store
/// consistent.
pub proof fn lemma_indexed_consistent(
    extractors: Seq<&dyn InfoExtractor>,
    root: SyntaxTree,
    code: Seq<char>,
    file_path: Seq<char>,
    data: ExtractedDataModel,
)
    requires
        data.consistent(),
    ensures
        indexed(extractors, root, code, file_path, data).consistent(),
{
    let after = indexed(extractors, root, code, file_path, data);
    assert forall|record: RecordModel| #[trigger] after.holds(record) implies after.file_contents.contains_key(
    record.file_path()) by {
        lemma_indexed_provenance(extractors, root, code, file_path, data, record);
        if !data.holds(record) {
            let (i, node, preceding) = choose|i: int, node: SyntaxTree, preceding: Seq<SyntaxTree>|
                {
                    &&& 0 <= i < extractors.len()
                    &&& root.holds_node(node)
                    &&& node.kind == extractors[i].kind_tag()
                    &&& record == #[trigger] appended(extractors[i], node, preceding, code, file_path)
                };
            lemma_appended_frame(extractors[i], node, preceding, code, file_path);
        }
    }
}

/// The same of a file that is parsed first.
pub proof fn lemma_indexed_source_consistent(
    extractors: Seq<&dyn InfoExtractor>,
    code: Seq<char>,
    file_path: Seq<char>,
    data: ExtractedDataModel,
)
    requires
        data.consistent(),
    ensures
        indexed_source(extractors, code, file_path, data).consistent(),
{
    if rust_tree(code) is Some {
        lemma_indexed_consistent(extractors, rust_tree(code)->0, code, file_path, data);
    }
}

/// The same of a whole run: whatever files are indexed, the store holds
/// the text of every record's file.
pub proof fn lemma_indexed_files_consistent(
    extractors: Seq<&dyn InfoExtractor>,
    files: Seq<SourceText>,
)
    ensures
        indexed_files(extractors, files, ExtractedDataModel::empty()).consistent(),
    decreases files.len(),
{
    if files.len() > 0 {
        lemma_indexed_files_consistent(extractors, files.drop_last());
        lemma_indexed_source_consistent(
            extractors,
            files.last().text@,
            files.last().path@,
            indexed_files(extractors, files.drop_last(), ExtractedDataModel::empty()),
        );
    }
}

/// Every record's byte range can be cut out of its file's text: indexing
/// a file whose tree is legible in its text keeps a store sliceable, unless
/// the file replaces another text under the same path.
pub proof fn lemma_indexed_sliceable(
    extractors: Seq<&dyn InfoExtractor>,
    root: SyntaxTree,
    code: Seq<char>,
    file_path: Seq<char>,
    data: ExtractedDataModel,
)
    requires
        root.legible(code),
        data.sliceable(),
        data.file_contents.contains_key(file_path) ==> data.file_contents[file_path] == code,
    ensures
        indexed(extractors, root, code, file_path, data).sliceable(),
{
    let after = indexed(extractors, root, code, file_path, data);
    assert forall|record: RecordModel| #[trigger] after.holds(record) implies after.file_contents.contains_key(
    record.file_path()) && slice_text(
        after.file_contents[record.file_path()],
        record.start_position() as int,
        record.end_position() as int,
    ) is Some by {
        lemma_indexed_provenance(extractors, root, code, file_path, data, record);
        if !data.holds(record) {
            let (i, node, preceding) = choose|i: int, node: SyntaxTree, preceding: Seq<SyntaxTree>|
                {
                    &&& 0 <= i < extractors.len()
                    &&& root.holds_node(node)
                    &&& node.kind == extractors[i].kind_tag()
                    &&& record == #[trigger] appended(extractors[i], node, preceding, code, file_path)
                };
            lemma_appended_frame(extractors[i], node, preceding, code, file_path);
            lemma_extent_legible(root, node, code);
        }
    }
}

/// In a tree that is legible in a text, the range from the start of a
/// node to the end of its extent can be cut out of the text.
pub proof fn lemma_extent_legible(root: SyntaxTree, node: SyntaxTree, code: Seq<char>)
    requires
        root.legible(code),
        root.holds_node(node),
    ensures
        slice_text(code, node.start_byte as int, node.extent_end() as int) is Some,
{
    lemma_max_end(node.children, node.end_byte);
    assert(node.text(code) is Some);
    if node.extent_end() != node.end_byte {
        let i = choose|i: int|
            0 <= i < node.children.len() && (#[trigger] node.children[i]).end_byte
                == node.extent_end();
        assert(node.children[i].holds_node(node.children[i]));
        assert(node.holds_node(node.children[i]));
        lemma_holds_node_transitive(root, node, node.children[i]);
        assert(node.children[i].text(code) is Some);
    }
}

/// Every record that is appended names the file that the extractor was
/// given, starts where its node starts, and ends at the largest end offset
/// among the node and its direct children, whatever the extractor.
pub proof fn lemma_appended_frame<E: InfoExtractor + ?Sized>(
    extractor: &E,
    node: SyntaxTree,
    preceding: Seq<SyntaxTree>,
    code: Seq<char>,
    file_path: Seq<char>,
)
    ensures
        appended(extractor, node, preceding, code, file_path).file_path() == file_path,
        appended(extractor, node, preceding, code, file_path).start_position()
            == node.start_byte,
        appended(extractor, node, preceding, code, file_path).end_position()
            == node.extent_end(),
{
}

/// The byte range of a record of an ordered node is ordered, and reaches
/// at least to the end of the node.
pub proof fn lemma_record_range_ordered<E: InfoExtractor + ?Sized>(
    extractor: &E,
    node: SyntaxTree,
    preceding: Seq<SyntaxTree>,
    code: Seq<char>,
    file_path: Seq<char>,
)
    requires
        node.start_byte <= node.end_byte,
    ensures
        appended(extractor, node, preceding, code, file_path).start_position() <= appended(
            extractor,
            node,
            preceding,
            code,
            file_path,
        ).end_position(),
        node.end_byte <= appended(extractor, node, preceding, code, file_path).end_position(),
{
    lemma_max_end(node.children, node.end_byte);
}

/// Whether files of `files` that share a path share their text.
pub open spec fn one_text_for_each_path(files: Seq<SourceText>) -> bool {
    forall|i: int, j: int|
        0 <= i < files.len() && 0 <= j < files.len() && (#[trigger] files[i]).path@ == (
        #[trigger] files[j]).path@ ==> files[i].text@ == files[j].text@
}

/// The texts that a run holds are texts of its files, under their paths.
pub proof fn lemma_indexed_files_texts(
    extractors: Seq<&dyn InfoExtractor>,
    files: Seq<SourceText>,
    path: Seq<char>,
)
    requires
        indexed_files(extractors, files, ExtractedDataModel::empty()).file_contents.contains_key(
            path,
        ),
    ensures
        exists|i: int|
            0 <= i < files.len() && (#[trigger] files[i]).path@ == path && files[i].text@
                == indexed_files(extractors, files, ExtractedDataModel::empty()).file_contents[path],
    decreases files.len(),
{
    let empty = ExtractedDataModel::empty();
    if files.len() > 0 {
        let front = files.drop_last();
        let last = files.last();
        let before = indexed_files(extractors, front, empty);
        let after = indexed_files(extractors, files, empty);
        if rust_tree(last.text@) is Some && rust_tree(last.text@)->0.legible(last.text@) {
            lemma_indexed_provenance(
                extractors,
                rust_tree(last.text@)->0,
                last.text@,
                last.path@,
                before,
                arbitrary(),
            );
        }
        if after.file_contents == before.file_contents || path != last.path@ {
            assert(before.file_contents.contains_key(path));
            assert(before.file_contents[path] == after.file_contents[path]);
            lemma_indexed_files_texts(extractors, front, path);
            let i = choose|i: int|
                0 <= i < front.len() && (#[trigger] front[i]).path@ == path && front[i].text@
                    == before.file_contents[path];
            assert(files[i] == front[i]);
        } else {
            assert(files[files.len() - 1].path@ == path);
        }
    }
}

/// Every record of a whole run can be cut out of the text that the store
/// holds of its file, where files that share a path share their text.
pub proof fn lemma_indexed_files_sliceable(
    extractors: Seq<&dyn InfoExtractor>,
    files: Seq<SourceText>,
)
    requires
        one_text_for_each_path(files),
    ensures
        indexed_files(extractors, files, ExtractedDataModel::empty()).sliceable(),
    decreases files.len(),
{
    let empty = ExtractedDataModel::empty();
    if files.len() > 0 {
        let front = files.drop_last();
        let last = files.last();
        let before = indexed_files(extractors, front, empty);
        assert(one_text_for_each_path(front)) by {
            assert forall|i: int, j: int|
                0 <= i < front.len() && 0 <= j < front.len() && (#[trigger] front[i]).path@ == (
                #[trigger] front[j]).path@ implies front[i].text@ == front[j].text@ by {
                assert(files[i] == front[i]);
                assert(files[j] == front[j]);
            }
        }
        lemma_indexed_files_sliceable(extractors, front);
        if rust_tree(last.text@) is Some && rust_tree(last.text@)->0.legible(last.text@) {
            if before.file_contents.contains_key(last.path@) {
                lemma_indexed_files_texts(extractors, front, last.path@);
                let i = choose|i: int|
                    0 <= i < front.len() && (#[trigger] front[i]).path@ == last.path@
                        && front[i].text@ == before.file_contents[last.path@];
                assert(files[i] == front[i]);
                assert(files[files.len() - 1] == last);
            }
            lemma_indexed_sliceable(
                extractors,
                rust_tree(last.text@)->0,
                last.text@,
                last.path@,
                before,
            );
        }
    }
}

/// Indexing is repeatable: files with the same paths and texts, indexed in
/// the same order with the same extractors, give the same store.
pub proof fn lemma_indexing_is_repeatable(
    extractors: Seq<&dyn InfoExtractor>,
    first: Seq<SourceText>,
    second: Seq<SourceText>,
    data: ExtractedDataModel,
)
    requires
        same_files(first, second),
    ensures
        indexed_files(extractors, first, data) == indexed_files(extractors, second, data),
    decreases first.len(),
{
    if first.len() > 0 {
        assert(same_files(first.drop_last(), second.drop_last())) by {
            assert forall|i: int| 0 <= i < first.drop_last().len() implies (
            #[trigger] first.drop_last()[i]).path@ == second.drop_last()[i].path@
                && first.drop_last()[i].text@ == second.drop_last()[i].text@ by {
                assert(first[i].path@ == second[i].path@);
            }
        }
        lemma_indexing_is_repeatable(extractors, first.drop_last(), second.drop_last(), data);
        assert(first[first.len() - 1].path@ == second[first.len() - 1].path@);
    }
}

/// The name of a struct record is the text of the declaration's type
/// identifier.
pub proof fn lemma_struct_name_is_identifier_text(
    node: SyntaxTree,
    preceding: Seq<SyntaxTree>,
    code: Seq<char>,
    file_path: Seq<char>,
    at: int,
)
    requires
        0 <= at < node.children.len(),
        node.children[at].kind == TYPE_IDENTIFIER@,
        forall|j: int|
            at < j < node.children.len() ==> (#[trigger] node.children[j]).kind
                != TYPE_IDENTIFIER@,
        node.children[at].text(code) is Some,
    ensures
        rules::struct_info(node, preceding, code, file_path).name == node.children[at].text(
            code,
        )->0,
{
    lemma_last_of_kind_is(node.children, TYPE_IDENTIFIER@, at);
}

/// Whether `node` is a list of fields, parenthesized or braced.
pub open spec fn is_field_list(node: SyntaxTree) -> bool {
    node.kind == ORDERED_FIELD_DECLARATION_LIST@ || node.kind == FIELD_DECLARATION_LIST@
}

/// A variant with no list of fields is a unit variant.
pub proof fn lemma_variant_without_fields_is_unit(variant: SyntaxTree, code: Seq<char>)
    requires
        forall|j: int|
            0 <= j < variant.children.len() ==> !is_field_list(#[trigger] variant.children[j]),
    ensures
        rules::variant_info(variant, code).variant_type == EnumVariantTypeModel::Unit,
{
    lemma_shape_without_fields(variant.children, code);
}

/// Children without a list of fields give the shape of a unit variant.
proof fn lemma_shape_without_fields(children: Seq<SyntaxTree>, code: Seq<char>)
    requires
        forall|j: int| 0 <= j < children.len() ==> !is_field_list(#[trigger] children[j]),
    ensures
        rules::variant_shape(children, code) == EnumVariantTypeModel::Unit,
    decreases children.len(),
{
    if children.len() > 0 {
        assert(!is_field_list(children[children.len() - 1]));
        assert forall|j: int| 0 <= j < children.drop_last().len() implies !is_field_list(
            #[trigger] children.drop_last()[j],
        ) by {
            assert(!is_field_list(children[j]));
        }
        lemma_shape_without_fields(children.drop_last(), code);
    }
}

/// The shape of children is that of their last list of fields.
proof fn lemma_shape_of_last_list(children: Seq<SyntaxTree>, code: Seq<char>, at: int)
    requires
        0 <= at < children.len(),
        is_field_list(children[at]),
        forall|j: int| at < j < children.len() ==> !is_field_list(#[trigger] children[j]),
    ensures
        rules::variant_shape(children, code) == rules::variant_shape(
            children.take(at + 1),
            code,
        ),
    decreases children.len(),
{
    if at + 1 < children.len() {
        assert(!is_field_list(children[children.len() - 1]));
        let front = children.drop_last();
        assert forall|j: int| at < j < front.len() implies !is_field_list(#[trigger] front[j]) by {
            assert(!is_field_list(children[j]));
        }
        lemma_shape_of_last_list(front, code, at);
        assert(front.take(at + 1) == children.take(at + 1));
    } else {
        assert(children.take(at + 1) == children);
    }
}

/// A variant whose last list of fields is parenthesized is a tuple variant
/// that holds the types of the list's fields, and one whose last list is
/// braced is a struct variant that holds the names and types of the list's
/// fields.
pub proof fn lemma_variant_classification(variant: SyntaxTree, code: Seq<char>, at: int)
    requires
        0 <= at < variant.children.len(),
        is_field_list(variant.children[at]),
        forall|j: int|
            at < j < variant.children.len() ==> !is_field_list(#[trigger] variant.children[j]),
    ensures
        variant.children[at].kind == ORDERED_FIELD_DECLARATION_LIST@ ==> rules::variant_info(
            variant,
            code,
        ).variant_type == EnumVariantTypeModel::Tuple(
            rules::tuple_types(variant.children[at].children, code),
        ),
        variant.children[at].kind == FIELD_DECLARATION_LIST@ ==> rules::variant_info(
            variant,
            code,
        ).variant_type == EnumVariantTypeModel::Struct(
            rules::named_fields(variant.children[at].children, code),
        ),
{
    reveal_strlit("ordered_field_declaration_list");
    reveal_strlit("field_declaration_list");
    assert(ORDERED_FIELD_DECLARATION_LIST@.len() == 30);
    assert(FIELD_DECLARATION_LIST@.len() == 22);
    lemma_shape_of_last_list(variant.children, code, at);
    assert(variant.children.take(at + 1).last() == variant.children[at]);
}

/// The types of a tuple variant keep the order of its fields: the types of
/// fields followed by more fields are the types of the first followed by the
/// types of the others.
pub proof fn lemma_tuple_types_in_order(
    first: Seq<SyntaxTree>,
    second: Seq<SyntaxTree>,
    code: Seq<char>,
)
    ensures
        rules::tuple_types(first + second, code) == rules::tuple_types(first, code)
            + rules::tuple_types(second, code),
    decreases second.len(),
{
    if second.len() == 0 {
        assert(first + second == first);
        assert(rules::tuple_types(first, code) + rules::tuple_types(second, code)
            == rules::tuple_types(first, code));
    } else {
        assert((first + second).drop_last() == first + second.drop_last());
        assert((first + second).last() == second.last());
        lemma_tuple_types_in_order(first, second.drop_last(), code);
        let a = rules::tuple_types(first, code);
        let b = rules::tuple_types(second.drop_last(), code);
        match rules::type_entry(second.last(), code) {
            Some(text) => {
                assert((a + b) + seq![text] == a + (b + seq![text]));
            },
            None => {},
        }
    }
}

/// The fields of a struct variant keep their order in the same way.
pub proof fn lemma_named_fields_in_order(
    first: Seq<SyntaxTree>,
    second: Seq<SyntaxTree>,
    code: Seq<char>,
)
    ensures
        rules::named_fields(first + second, code) == rules::named_fields(first, code)
            + rules::named_fields(second, code),
    decreases second.len(),
{
    if second.len() == 0 {
        assert(first + second == first);
        assert(rules::named_fields(first, code) + rules::named_fields(second, code)
            == rules::named_fields(first, code));
    } else {
        assert((first + second).drop_last() == first + second.drop_last());
        assert((first + second).last() == second.last());
        lemma_named_fields_in_order(first, second.drop_last(), code);
        let a = rules::named_fields(first, code);
        let b = rules::named_fields(second.drop_last(), code);
        match rules::named_field_entry(second.last(), code) {
            Some(field) => {
                assert((a + b) + seq![field] == a + (b + seq![field]));
            },
            None => {},
        }
    }
}

/// Whether the kinds that the extractors of the registry look for differ
/// from one another.
pub open spec fn kinds_distinct(extractors: Seq<&dyn InfoExtractor>) -> bool {
    forall|i: int, j: int|
        0 <= i < j < extractors.len() ==> (#[trigger] extractors[i]).kind_tag() != (
        #[trigger] extractors[j]).kind_tag()
}

/// No extractor of the registry looks for the kind `kind`.
pub open spec fn no_extractor_for(extractors: Seq<&dyn InfoExtractor>, kind: Seq<char>) -> bool {
    forall|i: int| 0 <= i < extractors.len() ==> (#[trigger] extractors[i]).kind_tag() != kind
}

/// A node that no extractor looks for leaves the store as it is.
pub proof fn lemma_visit_of_unclaimed_node(
    extractors: Seq<&dyn InfoExtractor>,
    node: SyntaxTree,
    preceding: Seq<SyntaxTree>,
    code: Seq<char>,
    file_path: Seq<char>,
    data: ExtractedDataModel,
)
    requires
        no_extractor_for(extractors, node.kind),
    ensures
        visit(extractors, node, preceding, code, file_path, data) == data,
    decreases extractors.len(),
{
    if extractors.len() > 0 {
        let front = extractors.drop_last();
        assert(no_extractor_for(front, node.kind)) by {
            assert forall|i: int| 0 <= i < front.len() implies (#[trigger] front[i]).kind_tag()
                != node.kind by {
                assert(front[i] == extractors[i]);
            }
        }
        lemma_visit_of_unclaimed_node(front, node, preceding, code, file_path, data);
        assert(extractors[extractors.len() - 1].kind_tag() != node.kind);
    }
}

/// Where the extractors look for kinds that differ from one another, a
/// node of the kind of one of them adds exactly the record that this
/// extractor derives from it.
pub proof fn lemma_visit_of_claimed_node(
    extractors: Seq<&dyn InfoExtractor>,
    at: int,
    node: SyntaxTree,
    preceding: Seq<SyntaxTree>,
    code: Seq<char>,
    file_path: Seq<char>,
    data: ExtractedDataModel,
)
    requires
        kinds_distinct(extractors),
        0 <= at < extractors.len(),
        node.kind == extractors[at].kind_tag(),
    ensures
        visit(extractors, node, preceding, code, file_path, data) == data.with(
            appended(extractors[at], node, preceding, code, file_path),
        ),
    decreases extractors.len(),
{
    let front = extractors.drop_last();
    if at == extractors.len() - 1 {
        assert(no_extractor_for(front, node.kind)) by {
            assert forall|i: int| 0 <= i < front.len() implies (#[trigger] front[i]).kind_tag()
                != node.kind by {
                assert(front[i] == extractors[i]);
                assert(extractors[i].kind_tag() != extractors[at].kind_tag());
            }
        }
        lemma_visit_of_unclaimed_node(front, node, preceding, code, file_path, data);
    } else {
        assert(kinds_distinct(front)) by {
            assert forall|i: int, j: int| 0 <= i < j < front.len() implies (
            #[trigger] front[i]).kind_tag() != (#[trigger] front[j]).kind_tag() by {
                assert(front[i] == extractors[i]);
                assert(front[j] == extractors[j]);
            }
        }
        assert(front[at] == extractors[at]);
        lemma_visit_of_claimed_node(front, at, node, preceding, code, file_path, data);
        assert(extractors[at].kind_tag() != extractors[extractors.len() - 1].kind_tag());
    }
}

/// Whether `after` holds, in every category, the records of `before` first
/// and in the same order, and the same texts.
pub open spec fn extends(after: ExtractedDataModel, before: ExtractedDataModel) -> bool {
    &&& before.structs.is_prefix_of(after.structs)
    &&& before.functions.is_prefix_of(after.functions)
    &&& before.type_aliases.is_prefix_of(after.type_aliases)
    &&& before.impls.is_prefix_of(after.impls)
    &&& before.use_dependencies.is_prefix_of(after.use_dependencies)
    &&& before.mods.is_prefix_of(after.mods)
    &&& before.enums.is_prefix_of(after.enums)
    &&& before.macros.is_prefix_of(after.macros)
    &&& after.file_contents == before.file_contents
}

/// A visit only appends: what the store held stays first, as it was.
pub proof fn lemma_visit_extends(
    extractors: Seq<&dyn InfoExtractor>,
    node: SyntaxTree,
    preceding: Seq<SyntaxTree>,
    code: Seq<char>,
    file_path: Seq<char>,
    data: ExtractedDataModel,
)
    ensures
        extends(visit(extractors, node, preceding, code, file_path, data), data),
    decreases extractors.len(),
{
    if extractors.len() > 0 {
        lemma_visit_extends(extractors.drop_last(), node, preceding, code, file_path, data);
    }
}

/// A walk only appends: what the store held stays first, as it was.
pub proof fn lemma_walk_extends(
    extractors: Seq<&dyn InfoExtractor>,
    node: SyntaxTree,
    preceding: Seq<SyntaxTree>,
    code: Seq<char>,
    file_path: Seq<char>,
    data: ExtractedDataModel,
)
    ensures
        extends(walk(extractors, node, preceding, code, file_path, data), data),
    decreases node, 0nat,
{
    lemma_visit_extends(extractors, node, preceding, code, file_path, data);
    lemma_walk_children_extends(
        extractors,
        node.children,
        node.children.len(),
        code,
        file_path,
        visit(extractors, node, preceding, code, file_path, data),
    );
}

/// A walk of the first `count` of the trees `children` only appends.
pub proof fn lemma_walk_children_extends(
    extractors: Seq<&dyn InfoExtractor>,
    children: Seq<SyntaxTree>,
    count: nat,
    code: Seq<char>,
    file_path: Seq<char>,
    data: ExtractedDataModel,
)
    requires
        count <= children.len(),
    ensures
        extends(walk_children(extractors, children, count, code, file_path, data), data),
    decreases children, count,
{
    if count > 0 {
        lemma_walk_children_extends(
            extractors,
            children,
            (count - 1) as nat,
            code,
            file_path,
            data,
        );
        lemma_walk_extends(
            extractors,
            children[count - 1],
            children.take(count - 1),
            code,
            file_path,
            walk_children(extractors, children, (count - 1) as nat, code, file_path, data),
        );
    }
}

/// Merging is associative.
pub proof fn lemma_merged_associative(
    a: ExtractedDataModel,
    b: ExtractedDataModel,
    c: ExtractedDataModel,
)
    ensures
        a.merged(b).merged(c) == a.merged(b.merged(c)),
{
    let left = a.merged(b).merged(c);
    let right = a.merged(b.merged(c));
    assert(left.structs =~= right.structs);
    assert(left.functions =~= right.functions);
    assert(left.type_aliases =~= right.type_aliases);
    assert(left.impls =~= right.impls);
    assert(left.use_dependencies =~= right.use_dependencies);
    assert(left.mods =~= right.mods);
    assert(left.enums =~= right.enums);
    assert(left.macros =~= right.macros);
    assert(left.file_contents =~= right.file_contents);
}

/// Merging with the empty store changes nothing.
pub proof fn lemma_merged_with_empty(a: ExtractedDataModel)
    ensures
        a.merged(ExtractedDataModel::empty()) == a,
        ExtractedDataModel::empty().merged(a) == a,
{
    let empty = ExtractedDataModel::empty();
    let right = a.merged(empty);
    assert(right.structs =~= a.structs);
    assert(right.functions =~= a.functions);
    assert(right.type_aliases =~= a.type_aliases);
    assert(right.impls =~= a.impls);
    assert(right.use_dependencies =~= a.use_dependencies);
    assert(right.mods =~= a.mods);
    assert(right.enums =~= a.enums);
    assert(right.macros =~= a.macros);
    assert(right.file_contents =~= a.file_contents);
    let left = empty.merged(a);
    assert(left.structs =~= a.structs);
    assert(left.functions =~= a.functions);
    assert(left.type_aliases =~= a.type_aliases);
    assert(left.impls =~= a.impls);
    assert(left.use_dependencies =~= a.use_dependencies);
    assert(left.mods =~= a.mods);
    assert(left.enums =~= a.enums);
    assert(left.macros =~= a.macros);
    assert(left.file_contents =~= a.file_contents);
}

/// Appending a record to what was merged is merging with what the record
/// was appended to.
pub proof fn lemma_merged_with(a: ExtractedDataModel, b: ExtractedDataModel, record: RecordModel)
    ensures
        a.merged(b).with(record) == a.merged(b.with(record)),
{
    let left = a.merged(b).with(record);
    let right = a.merged(b.with(record));
    assert(left.structs =~= right.structs);
    assert(left.functions =~= right.functions);
    assert(left.type_aliases =~= right.type_aliases);
    assert(left.impls =~= right.impls);
    assert(left.use_dependencies =~= right.use_dependencies);
    assert(left.mods =~= right.mods);
    assert(left.enums =~= right.enums);
    assert(left.macros =~= right.macros);
}

/// What a visit adds does not depend on what the store holds.
pub proof fn lemma_visit_is_independent(
    extractors: Seq<&dyn InfoExtractor>,
    node: SyntaxTree,
    preceding: Seq<SyntaxTree>,
    code: Seq<char>,
    file_path: Seq<char>,
    held: ExtractedDataModel,
    data: ExtractedDataModel,
)
    ensures
        visit(extractors, node, preceding, code, file_path, held.merged(data)) == held.merged(
            visit(extractors, node, preceding, code, file_path, data),
        ),
    decreases extractors.len(),
{
    if extractors.len() > 0 {
        let front = extractors.drop_last();
        lemma_visit_is_independent(front, node, preceding, code, file_path, held, data);
        if node.kind == extractors.last().kind_tag() {
            lemma_merged_with(
                held,
                visit(front, node, preceding, code, file_path, data),
                appended(extractors.last(), node, preceding, code, file_path),
            );
        }
    }
}

/// What a walk adds does not depend on what the store holds.
pub proof fn lemma_walk_is_independent(
    extractors: Seq<&dyn InfoExtractor>,
    node: SyntaxTree,
    preceding: Seq<SyntaxTree>,
    code: Seq<char>,
    file_path: Seq<char>,
    held: ExtractedDataModel,
    data: ExtractedDataModel,
)
    ensures
        walk(extractors, node, preceding, code, file_path, held.merged(data)) == held.merged(
            walk(extractors, node, preceding, code, file_path, data),
        ),
    decreases node, 0nat,
{
    lemma_visit_is_independent(extractors, node, preceding, code, file_path, held, data);
    lemma_walk_children_is_independent(
        extractors,
        node.children,
        node.children.len(),
        code,
        file_path,
        held,
        visit(extractors, node, preceding, code, file_path, data),
    );
}

/// What a walk of the first `count` of the trees `children` adds does not
/// depend on what the store holds.
pub proof fn lemma_walk_children_is_independent(
    extractors: Seq<&dyn InfoExtractor>,
    children: Seq<SyntaxTree>,
    count: nat,
    code: Seq<char>,
    file_path: Seq<char>,
    held: ExtractedDataModel,
    data: ExtractedDataModel,
)
    requires
        count <= children.len(),
    ensures
        walk_children(extractors, children, count, code, file_path, held.merged(data))
            == held.merged(walk_children(extractors, children, count, code, file_path, data)),
    decreases children, count,
{
    if count > 0 {
        lemma_walk_children_is_independent(
            extractors,
            children,
            (count - 1) as nat,
            code,
            file_path,
            held,
            data,
        );
        lemma_walk_is_independent(
            extractors,
            children[count - 1],
            children.take(count - 1),
            code,
            file_path,
            held,
            walk_children(extractors, children, (count - 1) as nat, code, file_path, data),
        );
    }
}

/// Files are indexed independently of one another: indexing a file into a
/// store gives what merging the store with the index of the file alone
/// gives.
pub proof fn lemma_indexed_source_is_independent(
    extractors: Seq<&dyn InfoExtractor>,
    code: Seq<char>,
    file_path: Seq<char>,
    held: ExtractedDataModel,
)
    ensures
        indexed_source(extractors, code, file_path, held) == held.merged(
            indexed_source(extractors, code, file_path, ExtractedDataModel::empty()),
        ),
{
    let empty = ExtractedDataModel::empty();
    lemma_merged_with_empty(held);
    if rust_tree(code) is Some && rust_tree(code)->0.legible(code) {
        let root = rust_tree(code)->0;
        let text = empty.with_text(file_path, code);
        assert(held.with_text(file_path, code) == held.merged(text)) by {
            let merged = held.merged(text);
            assert(merged.structs =~= held.structs);
            assert(merged.functions =~= held.functions);
            assert(merged.type_aliases =~= held.type_aliases);
            assert(merged.impls =~= held.impls);
            assert(merged.use_dependencies =~= held.use_dependencies);
            assert(merged.mods =~= held.mods);
            assert(merged.enums =~= held.enums);
            assert(merged.macros =~= held.macros);
            assert(merged.file_contents =~= held.file_contents.insert(file_path, code));
        }
        lemma_walk_is_independent(extractors, root, Seq::empty(), code, file_path, held, text);
    }
}

/// A run over files can be split: the index of files followed by more
/// files is the index of the first merged with the index of the others.
pub proof fn lemma_indexed_files_of_concat(
    extractors: Seq<&dyn InfoExtractor>,
    first: Seq<SourceText>,
    second: Seq<SourceText>,
)
    ensures
        indexed_files(extractors, first + second, ExtractedDataModel::empty()) == indexed_files(
            extractors,
            first,
            ExtractedDataModel::empty(),
        ).merged(indexed_files(extractors, second, ExtractedDataModel::empty())),
    decreases second.len(),
{
    let empty = ExtractedDataModel::empty();
    let head = indexed_files(extractors, first, empty);
    if second.len() == 0 {
        assert(first + second == first);
        lemma_merged_with_empty(head);
    } else {
        let front = second.drop_last();
        let last = second.last();
        assert((first + second).drop_last() == first + front);
        assert((first + second).last() == last);
        lemma_indexed_files_of_concat(extractors, first, front);
        let tail = indexed_files(extractors, front, empty);
        let alone = indexed_source(extractors, last.text@, last.path@, empty);
        lemma_indexed_source_is_independent(extractors, last.text@, last.path@, head.merged(tail));
        lemma_indexed_source_is_independent(extractors, last.text@, last.path@, tail);
        lemma_merged_associative(head, tail, alone);
    }
}

} // verus!
