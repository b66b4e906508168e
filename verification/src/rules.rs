//! What each record holds, stated as functions of the syntax tree and the
//! source text.
//!
//! A part of a record that is read from a child node is left at its default
//! (the empty text, the empty list, `false`) where the child is missing or
//! its byte range cannot be read as text.

use vstd::prelude::*;
use crate::kinds::{
    ATTRIBUTE_ITEM, ENUM_VARIANT, FIELD_ALIAS, FIELD_BODY, FIELD_DECLARATION,
    FIELD_DECLARATION_LIST, FIELD_IDENTIFIER, FIELD_MACRO, FIELD_NAME, FIELD_PARAMETERS,
    FIELD_RETURN_TYPE, FIELD_TYPE, IDENTIFIER, LINE_COMMENT, LINE_FEED,
    ORDERED_FIELD_DECLARATION_LIST, PARAMETER, SCOPED_IDENTIFIER, SCOPED_USE_LIST, SELF_PARAMETER,
    TYPE_IDENTIFIER, USE_AS_CLAUSE, USE_LIST, USE_WILDCARD, VISIBILITY_MODIFIER, WILDCARD_SEGMENT,
};
use crate::records::{
    EnumInfoModel, EnumVariantInfoModel, EnumVariantTypeModel, FieldInfoModel, FunctionInfoModel,
    ImplInfoModel, MacroInfoModel, ModInfoModel, ParameterInfoModel, StructInfoModel,
    TypeAliasInfoModel, UseDependencyInfoModel,
};
use crate::syntax::{child_in_field, has_kind, last_child_of_kind, SyntaxTree};
use crate::text::{is_doc_line, text_or_empty, trimmed};

verus! {

/// The text of an optional node; empty where the node is missing or its
/// text cannot be read.
pub open spec fn node_text_or_empty(node: Option<SyntaxTree>, code: Seq<char>) -> Seq<char> {
    match node {
        Some(n) => text_or_empty(n.text(code)),
        None => Seq::empty(),
    }
}

/// The text of the last child of `node` that has the kind `kind`.
pub open spec fn kind_text(node: SyntaxTree, kind: Seq<char>, code: Seq<char>) -> Seq<char> {
    node_text_or_empty(last_child_of_kind(node.children, kind), code)
}

/// The text of the first child that `node` holds in the field `field`.
pub open spec fn field_text(node: SyntaxTree, field: Seq<char>, code: Seq<char>) -> Seq<char> {
    node_text_or_empty(child_in_field(node.children, field), code)
}

/// Whether a visibility modifier stands among the children of `node`.
pub open spec fn is_public(node: SyntaxTree) -> bool {
    has_kind(node.children, VISIBILITY_MODIFIER@)
}

/// The record of a named field declaration.
pub open spec fn field_info(field: SyntaxTree, code: Seq<char>) -> FieldInfoModel {
    FieldInfoModel {
        name: kind_text(field, FIELD_IDENTIFIER@, code),
        type_text: field_text(field, FIELD_TYPE@, code),
        is_pub: is_public(field),
    }
}

/// The record of `entry` where it is a field declaration.
pub open spec fn field_entry(entry: SyntaxTree, code: Seq<char>) -> Option<FieldInfoModel> {
    if entry.kind == FIELD_DECLARATION@ {
        Some(field_info(entry, code))
    } else {
        None
    }
}

/// The records of the field declarations among `entries`, in order.
pub open spec fn field_infos(entries: Seq<SyntaxTree>, code: Seq<char>) -> Seq<FieldInfoModel> {
    entries.filter_map(|entry: SyntaxTree| field_entry(entry, code))
}

/// The named fields of a struct: those of its list of field declarations.
pub open spec fn struct_fields(node: SyntaxTree, code: Seq<char>) -> Seq<FieldInfoModel> {
    match last_child_of_kind(node.children, FIELD_DECLARATION_LIST@) {
        Some(list) => field_infos(list.children, code),
        None => Seq::empty(),
    }
}

/// Whether `node` is a line comment whose text, trimmed, is a
/// documentation line.
pub open spec fn is_doc_comment(node: SyntaxTree, code: Seq<char>) -> bool {
    node.kind == LINE_COMMENT@ && match node.text(code) {
        Some(text) => is_doc_line(trimmed(text)),
        None => false,
    }
}

/// Whether `node` can lead up to a declaration: an attribute item or a
/// documentation line.
pub open spec fn is_leading(node: SyntaxTree, code: Seq<char>) -> bool {
    node.kind == ATTRIBUTE_ITEM@ || is_doc_comment(node, code)
}

/// Where, among the siblings that precede a declaration, the unbroken run
/// of attribute items and documentation lines that ends at the declaration
/// begins.
pub open spec fn leading_start(preceding: Seq<SyntaxTree>, code: Seq<char>) -> int
    decreases preceding.len(),
{
    if preceding.len() > 0 && is_leading(preceding.last(), code) {
        leading_start(preceding.drop_last(), code)
    } else {
        preceding.len() as int
    }
}

/// The siblings of that run, in source order.
pub open spec fn leading_siblings(preceding: Seq<SyntaxTree>, code: Seq<char>) -> Seq<
    SyntaxTree,
> {
    preceding.skip(leading_start(preceding, code))
}

/// The trimmed text of `node` where it is a documentation line.
pub open spec fn doc_entry(node: SyntaxTree, code: Seq<char>) -> Option<Seq<char>> {
    if is_doc_comment(node, code) {
        Some(trimmed(node.text(code)->0))
    } else {
        None
    }
}

/// The documentation lines among `siblings`, in order.
pub open spec fn doc_lines(siblings: Seq<SyntaxTree>, code: Seq<char>) -> Seq<Seq<char>> {
    siblings.filter_map(|node: SyntaxTree| doc_entry(node, code))
}

/// The lines joined by line feeds, first line first; nothing where there
/// is no line.
pub open spec fn join_lines(lines: Seq<Seq<char>>) -> Option<Seq<char>>
    decreases lines.len(),
{
    if lines.len() == 0 {
        None
    } else {
        match join_lines(lines.drop_last()) {
            Some(before) => Some(before + LINE_FEED@ + lines.last()),
            None => Some(lines.last()),
        }
    }
}

/// The documentation comment that leads up to a declaration.
pub open spec fn doc_comment(preceding: Seq<SyntaxTree>, code: Seq<char>) -> Option<Seq<char>> {
    join_lines(doc_lines(leading_siblings(preceding, code), code))
}

/// The text of `node` where it is an attribute item and can be read.
pub open spec fn attribute_item_entry(node: SyntaxTree, code: Seq<char>) -> Option<Seq<char>> {
    if node.kind == ATTRIBUTE_ITEM@ {
        node.text(code)
    } else {
        None
    }
}

/// The texts of the attribute items among `siblings`, in order.
pub open spec fn attribute_item_texts(siblings: Seq<SyntaxTree>, code: Seq<char>) -> Seq<
    Seq<char>,
> {
    siblings.filter_map(|node: SyntaxTree| attribute_item_entry(node, code))
}

/// The attribute items that lead up to a declaration, in source order.
pub open spec fn leading_attributes(preceding: Seq<SyntaxTree>, code: Seq<char>) -> Seq<
    Seq<char>,
> {
    attribute_item_texts(leading_siblings(preceding, code), code)
}

/// Where the source of a declaration starts when what leads up to it is
/// counted in: at the first sibling of the run of attribute items and
/// documentation lines that ends at the declaration, and at the declaration
/// itself where there is no such sibling.
pub open spec fn declaration_start(
    node: SyntaxTree,
    preceding: Seq<SyntaxTree>,
    code: Seq<char>,
) -> usize {
    let first = leading_start(preceding, code);
    if 0 <= first < preceding.len() {
        preceding[first].start_byte
    } else {
        node.start_byte
    }
}

/// The description of the struct declaration `node`, which the siblings
/// `preceding` come before, in the file `file_path` with the text `code`.
/// Its byte range starts with what leads up to the declaration.
pub open spec fn struct_info(
    node: SyntaxTree,
    preceding: Seq<SyntaxTree>,
    code: Seq<char>,
    file_path: Seq<char>,
) -> StructInfoModel {
    StructInfoModel {
        name: kind_text(node, TYPE_IDENTIFIER@, code),
        is_pub: is_public(node),
        doc_comment: doc_comment(preceding, code),
        attributes: leading_attributes(preceding, code),
        fields: struct_fields(node, code),
        start_position: declaration_start(node, preceding, code),
        end_position: node.extent_end(),
        file_path,
    }
}

/// The record that the index keeps of the struct declaration `node`: its
/// description, with a byte range that starts at the declaration itself.
pub open spec fn struct_record(
    node: SyntaxTree,
    preceding: Seq<SyntaxTree>,
    code: Seq<char>,
    file_path: Seq<char>,
) -> StructInfoModel {
    StructInfoModel {
        start_position: node.start_byte,
        ..struct_info(node, preceding, code, file_path)
    }
}

/// The record of a parameter.
pub open spec fn parameter_info(parameter: SyntaxTree, code: Seq<char>) -> ParameterInfoModel {
    ParameterInfoModel {
        name: kind_text(parameter, IDENTIFIER@, code),
        type_text: field_text(parameter, FIELD_TYPE@, code),
    }
}

/// The record of `entry` where it is a parameter other than a receiver.
pub open spec fn parameter_entry(entry: SyntaxTree, code: Seq<char>) -> Option<
    ParameterInfoModel,
> {
    if entry.kind == PARAMETER@ {
        Some(parameter_info(entry, code))
    } else {
        None
    }
}

/// The records of the parameters among `entries`, in order.
pub open spec fn parameter_infos(entries: Seq<SyntaxTree>, code: Seq<char>) -> Seq<
    ParameterInfoModel,
> {
    entries.filter_map(|entry: SyntaxTree| parameter_entry(entry, code))
}

/// The parameters of a function, its receiver left out.
pub open spec fn function_parameters(node: SyntaxTree, code: Seq<char>) -> Seq<
    ParameterInfoModel,
> {
    match child_in_field(node.children, FIELD_PARAMETERS@) {
        Some(list) => parameter_infos(list.children, code),
        None => Seq::empty(),
    }
}

/// Whether a function's parameter list holds a `self` receiver.
pub open spec fn has_receiver(node: SyntaxTree) -> bool {
    match child_in_field(node.children, FIELD_PARAMETERS@) {
        Some(list) => has_kind(list.children, SELF_PARAMETER@),
        None => false,
    }
}

/// The text of a function's return type.
pub open spec fn return_type(node: SyntaxTree, code: Seq<char>) -> Option<Seq<char>> {
    match child_in_field(node.children, FIELD_RETURN_TYPE@) {
        Some(ty) => ty.text(code),
        None => None,
    }
}

/// The record of the function declaration `node`.
pub open spec fn function_info(node: SyntaxTree, code: Seq<char>, file_path: Seq<char>) -> FunctionInfoModel {
    FunctionInfoModel {
        name: kind_text(node, IDENTIFIER@, code),
        parameters: function_parameters(node, code),
        return_type: return_type(node, code),
        is_pub: is_public(node),
        is_method: has_receiver(node),
        start_position: node.start_byte,
        end_position: node.extent_end(),
        file_path,
    }
}

/// The text of `entry` where its parent holds it as a type and it can be
/// read.
pub open spec fn type_entry(entry: SyntaxTree, code: Seq<char>) -> Option<Seq<char>> {
    if entry.field_name == Some(FIELD_TYPE@) {
        entry.text(code)
    } else {
        None
    }
}

/// The types of the unnamed fields among `entries`, in order.
pub open spec fn tuple_types(entries: Seq<SyntaxTree>, code: Seq<char>) -> Seq<Seq<char>> {
    entries.filter_map(|entry: SyntaxTree| type_entry(entry, code))
}

/// The name and the type of `entry` where it is a field declaration.
pub open spec fn named_field_entry(entry: SyntaxTree, code: Seq<char>) -> Option<
    (Seq<char>, Seq<char>),
> {
    if entry.kind == FIELD_DECLARATION@ {
        Some((kind_text(entry, FIELD_IDENTIFIER@, code), field_text(entry, FIELD_TYPE@, code)))
    } else {
        None
    }
}

/// The names and types of the named fields among `entries`, in order.
pub open spec fn named_fields(entries: Seq<SyntaxTree>, code: Seq<char>) -> Seq<
    (Seq<char>, Seq<char>),
> {
    entries.filter_map(|entry: SyntaxTree| named_field_entry(entry, code))
}

/// The shape of a variant's payload, from the variant's children: that of
/// the last list of fields among them, parenthesized or braced; a unit
/// variant where there is none.
pub open spec fn variant_shape(children: Seq<SyntaxTree>, code: Seq<char>) -> EnumVariantTypeModel
    decreases children.len(),
{
    if children.len() == 0 {
        EnumVariantTypeModel::Unit
    } else if children.last().kind == ORDERED_FIELD_DECLARATION_LIST@ {
        EnumVariantTypeModel::Tuple(tuple_types(children.last().children, code))
    } else if children.last().kind == FIELD_DECLARATION_LIST@ {
        EnumVariantTypeModel::Struct(named_fields(children.last().children, code))
    } else {
        variant_shape(children.drop_last(), code)
    }
}

/// The record of an enum variant.
pub open spec fn variant_info(variant: SyntaxTree, code: Seq<char>) -> EnumVariantInfoModel {
    EnumVariantInfoModel {
        name: field_text(variant, FIELD_NAME@, code),
        variant_type: variant_shape(variant.children, code),
    }
}

/// The record of `entry` where it is an enum variant.
pub open spec fn variant_entry(entry: SyntaxTree, code: Seq<char>) -> Option<
    EnumVariantInfoModel,
> {
    if entry.kind == ENUM_VARIANT@ {
        Some(variant_info(entry, code))
    } else {
        None
    }
}

/// The records of the variants among `entries`, in order.
pub open spec fn variant_infos(entries: Seq<SyntaxTree>, code: Seq<char>) -> Seq<
    EnumVariantInfoModel,
> {
    entries.filter_map(|entry: SyntaxTree| variant_entry(entry, code))
}

/// The variants of an enum: those in its body.
pub open spec fn enum_variants(node: SyntaxTree, code: Seq<char>) -> Seq<EnumVariantInfoModel> {
    match child_in_field(node.children, FIELD_BODY@) {
        Some(body) => variant_infos(body.children, code),
        None => Seq::empty(),
    }
}

/// The record of the enum declaration `node`.
pub open spec fn enum_info(node: SyntaxTree, code: Seq<char>, file_path: Seq<char>) -> EnumInfoModel {
    EnumInfoModel {
        name: field_text(node, FIELD_NAME@, code),
        variants: enum_variants(node, code),
        is_pub: is_public(node),
        start_position: node.start_byte,
        end_position: node.extent_end(),
        file_path,
    }
}

/// The record of the module declaration `node`.
pub open spec fn mod_info(node: SyntaxTree, code: Seq<char>, file_path: Seq<char>) -> ModInfoModel {
    ModInfoModel {
        name: kind_text(node, IDENTIFIER@, code),
        is_pub: is_public(node),
        start_position: node.start_byte,
        end_position: node.extent_end(),
        file_path,
    }
}

/// The record of the macro invocation `node`.
pub open spec fn macro_info(node: SyntaxTree, code: Seq<char>, file_path: Seq<char>) -> MacroInfoModel {
    MacroInfoModel {
        name: field_text(node, FIELD_MACRO@, code),
        start_position: node.start_byte,
        end_position: node.extent_end(),
        file_path,
    }
}

/// The record of the impl block `node`.
pub open spec fn impl_info(node: SyntaxTree, code: Seq<char>, file_path: Seq<char>) -> ImplInfoModel {
    ImplInfoModel {
        name: field_text(node, FIELD_TYPE@, code),
        is_pub: is_public(node),
        start_position: node.start_byte,
        end_position: node.extent_end(),
        file_path,
    }
}

/// The record of the type alias `node`, which the siblings `preceding`
/// come before.
pub open spec fn type_alias_info(
    node: SyntaxTree,
    preceding: Seq<SyntaxTree>,
    code: Seq<char>,
    file_path: Seq<char>,
) -> TypeAliasInfoModel {
    TypeAliasInfoModel {
        name: field_text(node, FIELD_NAME@, code),
        aliased_type: field_text(node, FIELD_TYPE@, code),
        is_pub: is_public(node),
        attributes: leading_attributes(preceding, code),
        start_position: node.start_byte,
        end_position: node.extent_end(),
        file_path,
    }
}

/// Whether nodes of the kind `kind` are made of path segments further down:
/// a path of several segments, or a group of imports.
pub open spec fn is_path_group(kind: Seq<char>) -> bool {
    kind == SCOPED_IDENTIFIER@ || kind == SCOPED_USE_LIST@ || kind == USE_LIST@
}

/// The identifiers that make up the path `node`, in order: an identifier
/// is its own single segment, and a path or a group of imports holds the
/// segments of its children.
pub open spec fn path_segments(node: SyntaxTree, code: Seq<char>) -> Seq<Seq<char>>
    decreases node, 0nat,
{
    if node.kind == IDENTIFIER@ {
        match node.text(code) {
            Some(text) => seq![text],
            None => Seq::empty(),
        }
    } else if is_path_group(node.kind) {
        paths_segments(node.children, code)
    } else {
        Seq::empty()
    }
}

/// The segments of the paths `nodes`, one path after the other.
pub open spec fn paths_segments(nodes: Seq<SyntaxTree>, code: Seq<char>) -> Seq<Seq<char>>
    decreases nodes, 1nat,
{
    if nodes.len() == 0 {
        Seq::empty()
    } else {
        paths_segments(nodes.drop_last(), code) + path_segments(nodes.last(), code)
    }
}

/// The segments that one child of a use declaration contributes: those of
/// a path, `*` for a wildcard, none otherwise.
pub open spec fn use_child_segments(child: SyntaxTree, code: Seq<char>) -> Seq<Seq<char>> {
    if child.kind == IDENTIFIER@ || is_path_group(child.kind) {
        path_segments(child, code)
    } else if child.kind == USE_WILDCARD@ {
        seq![WILDCARD_SEGMENT@]
    } else {
        Seq::empty()
    }
}

/// The segments of a use declaration, from its children.
pub open spec fn use_segments(children: Seq<SyntaxTree>, code: Seq<char>) -> Seq<Seq<char>>
    decreases children.len(),
{
    if children.len() == 0 {
        Seq::empty()
    } else {
        use_segments(children.drop_last(), code) + use_child_segments(children.last(), code)
    }
}

/// The new name that a use declaration gives its import: the alias of its
/// last `as` clause.
pub open spec fn use_alias(node: SyntaxTree, code: Seq<char>) -> Option<Seq<char>> {
    match last_child_of_kind(node.children, USE_AS_CLAUSE@) {
        Some(clause) => match child_in_field(clause.children, FIELD_ALIAS@) {
            Some(alias) => alias.text(code),
            None => None,
        },
        None => None,
    }
}

/// The record of the use declaration `node`.
pub open spec fn use_dependency_info(node: SyntaxTree, code: Seq<char>, file_path: Seq<char>) -> UseDependencyInfoModel {
    UseDependencyInfoModel {
        segments: use_segments(node.children, code),
        alias: use_alias(node, code),
        is_pub: is_public(node),
        start_position: node.start_byte,
        end_position: node.extent_end(),
        file_path,
    }
}

} // verus!
