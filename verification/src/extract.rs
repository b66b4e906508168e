//! Extraction: from a node of the syntax tree to the record of the
//! declaration that it stands for.
//!
//! Every function here computes what the function of the same name in
//! [`crate::rules`] states.

use vstd::prelude::*;
use vstd::string::StringExecFns;
use crate::kinds::{
    ATTRIBUTE_ITEM, ENUM_VARIANT, FIELD_ALIAS, FIELD_BODY, FIELD_DECLARATION,
    FIELD_DECLARATION_LIST, FIELD_IDENTIFIER, FIELD_MACRO, FIELD_NAME, FIELD_PARAMETERS,
    FIELD_RETURN_TYPE, FIELD_TYPE, IDENTIFIER, LINE_COMMENT, LINE_FEED,
    ORDERED_FIELD_DECLARATION_LIST, PARAMETER, SCOPED_IDENTIFIER, SCOPED_USE_LIST, SELF_PARAMETER,
    TYPE_IDENTIFIER, USE_AS_CLAUSE, USE_LIST, USE_WILDCARD, VISIBILITY_MODIFIER, WILDCARD_SEGMENT,
};
use crate::records::{
    EnumInfo, EnumVariantInfo, EnumVariantType, FieldInfo, FunctionInfo, ImplInfo, MacroInfo,
    ModInfo, ParameterInfo, StructInfo, TypeAliasInfo, UseDependencyInfo,
};
use crate::rules;
use crate::syntax::{lemma_children_view, lemma_trees, models, trees, SyntaxNode};
use crate::text::{starts_doc_line, trim};

verus! {

/// The text of an optional node; empty where the node is missing or its
/// text cannot be read.
pub fn text_or_default(node: Option<&SyntaxNode>, code: &str) -> (text: String)
    ensures
        text@ == rules::node_text_or_empty(node.deep_view(), code@),
{
    match node {
        Some(n) => match n.text(code) {
            Some(text) => text,
            None => String::new(),
        },
        None => String::new(),
    }
}

/// The text of the last child of `node` that has the kind `kind`.
pub fn kind_text(node: &SyntaxNode, kind: &str, code: &str) -> (text: String)
    ensures
        text@ == rules::kind_text(node.deep_view(), kind@, code@),
{
    text_or_default(node.last_child_of_kind(kind), code)
}

/// The text of the first child that `node` holds in the field `field`.
pub fn field_text(node: &SyntaxNode, field: &str, code: &str) -> (text: String)
    ensures
        text@ == rules::field_text(node.deep_view(), field@, code@),
{
    text_or_default(node.child_by_field_name(field), code)
}

/// Whether a visibility modifier stands among the children of `node`.
pub fn is_public(node: &SyntaxNode) -> (public: bool)
    ensures
        public == rules::is_public(node.deep_view()),
{
    node.has_child_of_kind(VISIBILITY_MODIFIER)
}

/// The record of a named field declaration.
pub fn extract_field_info(field_node: &SyntaxNode, source_code: &str) -> (info: FieldInfo)
    ensures
        info.deep_view() == rules::field_info(field_node.deep_view(), source_code@),
{
    FieldInfo {
        name: kind_text(field_node, FIELD_IDENTIFIER, source_code),
        type_text: field_text(field_node, FIELD_TYPE, source_code),
        is_pub: is_public(field_node),
    }
}

/// The records of the field declarations among the children of `list`.
fn collect_fields(list: &SyntaxNode, code: &str) -> (fields: Vec<FieldInfo>)
    ensures
        fields.deep_view() == rules::field_infos(list.deep_view().children, code@),
{
    proof {
        lemma_children_view(list);
    }
    let ghost entries = list.deep_view().children;
    let mut fields: Vec<FieldInfo> = Vec::new();
    let mut i: usize = 0;
    assert(fields.deep_view() =~= rules::field_infos(entries.take(0), code@));
    while i < list.children.len()
        invariant
            i <= list.children@.len(),
            entries == list.deep_view().children,
            models(entries, list.children@),
            fields.deep_view() == rules::field_infos(entries.take(i as int), code@),
        decreases list.children@.len() - i,
    {
        let entry = &list.children[i];
        assert(entries.take(i + 1).drop_last() == entries.take(i as int));
        if entry.is_kind(FIELD_DECLARATION) {
            let info = extract_field_info(entry, code);
            let ghost before = fields.deep_view();
            fields.push(info);
            assert(fields.deep_view() =~= before + seq![info.deep_view()]);
        }
        i = i + 1;
    }
    assert(entries.take(i as int) == entries);
    fields
}

/// The named fields of a struct.
fn struct_fields(node: &SyntaxNode, code: &str) -> (fields: Vec<FieldInfo>)
    ensures
        fields.deep_view() == rules::struct_fields(node.deep_view(), code@),
{
    match node.last_child_of_kind(FIELD_DECLARATION_LIST) {
        Some(list) => collect_fields(list, code),
        None => {
            let fields: Vec<FieldInfo> = Vec::new();
            assert(fields.deep_view() =~= Seq::empty());
            fields
        },
    }
}

/// The trimmed text of `node` where it is a documentation line.
fn doc_line(node: &SyntaxNode, code: &str) -> (line: Option<String>)
    ensures
        line.deep_view() == rules::doc_entry(node.deep_view(), code@),
{
    if node.is_kind(LINE_COMMENT) {
        match node.text(code) {
            Some(text) => {
                let line = trim(text.as_str());
                if starts_doc_line(line.as_str()) {
                    Some(line)
                } else {
                    None
                }
            },
            None => None,
        }
    } else {
        None
    }
}

/// Whether `node` can lead up to a declaration.
fn is_leading(node: &SyntaxNode, code: &str) -> (leading: bool)
    ensures
        leading == rules::is_leading(node.deep_view(), code@),
{
    node.is_kind(ATTRIBUTE_ITEM) || doc_line(node, code).is_some()
}

/// Where the run of attribute items and documentation lines that ends at
/// the declaration begins among the siblings before it.
fn leading_start(preceding: &[SyntaxNode], code: &str) -> (start: usize)
    ensures
        start == rules::leading_start(trees(preceding@), code@),
        start <= preceding@.len(),
{
    let ghost siblings = trees(preceding@);
    proof {
        lemma_trees(preceding@);
    }
    let mut start: usize = preceding.len();
    assert(siblings.take(start as int) == siblings);
    while start > 0
        invariant
            start <= preceding@.len(),
            siblings == trees(preceding@),
            models(siblings, preceding@),
            rules::leading_start(siblings, code@) == rules::leading_start(
                siblings.take(start as int),
                code@,
            ),
        decreases start,
    {
        assert(siblings.take(start as int).drop_last() == siblings.take(start - 1));
        if !is_leading(&preceding[start - 1], code) {
            return start;
        }
        start = start - 1;
    }
    start
}

/// The lines joined so far with one more line behind them.
fn join_line(joined: Option<String>, line: String) -> (out: Option<String>)
    ensures
        out.deep_view() == Some(
            match joined.deep_view() {
                Some(before) => before + LINE_FEED@ + line@,
                None => line@,
            },
        ),
{
    match joined {
        Some(before) => {
            let mut text = before;
            text.append(LINE_FEED);
            text.append(line.as_str());
            Some(text)
        },
        None => Some(line),
    }
}

/// The documentation comment that leads up to a declaration.
fn leading_doc_comment(preceding: &[SyntaxNode], code: &str) -> (doc: Option<String>)
    ensures
        doc.deep_view() == rules::doc_comment(trees(preceding@), code@),
{
    let start = leading_start(preceding, code);
    let ghost siblings = trees(preceding@);
    let ghost run = rules::leading_siblings(siblings, code@);
    proof {
        lemma_trees(preceding@);
    }
    let mut doc: Option<String> = None;
    let mut i: usize = start;
    while i < preceding.len()
        invariant
            start <= i <= preceding@.len(),
            siblings == trees(preceding@),
            models(siblings, preceding@),
            run == siblings.skip(start as int),
            doc.deep_view() == rules::join_lines(rules::doc_lines(run.take(i - start), code@)),
        decreases preceding@.len() - i,
    {
        assert(run.take(i - start + 1).drop_last() == run.take(i - start));
        assert(run[i - start] == siblings[i as int]);
        let ghost lines = rules::doc_lines(run.take(i - start), code@);
        match doc_line(&preceding[i], code) {
            Some(line) => {
                assert((lines + seq![line@]).drop_last() == lines);
                doc = join_line(doc, line);
            },
            None => {},
        }
        i = i + 1;
    }
    assert(run.take(i - start) == run);
    doc
}

/// The attribute items that lead up to a declaration, in source order.
fn leading_attributes(preceding: &[SyntaxNode], code: &str) -> (attributes: Vec<String>)
    ensures
        attributes.deep_view() == rules::leading_attributes(trees(preceding@), code@),
{
    let start = leading_start(preceding, code);
    let ghost siblings = trees(preceding@);
    let ghost run = rules::leading_siblings(siblings, code@);
    proof {
        lemma_trees(preceding@);
    }
    let mut attributes: Vec<String> = Vec::new();
    let mut i: usize = start;
    assert(attributes.deep_view() =~= rules::attribute_item_texts(run.take(0), code@));
    while i < preceding.len()
        invariant
            start <= i <= preceding@.len(),
            siblings == trees(preceding@),
            models(siblings, preceding@),
            run == siblings.skip(start as int),
            attributes.deep_view() == rules::attribute_item_texts(run.take(i - start), code@),
        decreases preceding@.len() - i,
    {
        assert(run.take(i - start + 1).drop_last() == run.take(i - start));
        assert(run[i - start] == siblings[i as int]);
        if preceding[i].is_kind(ATTRIBUTE_ITEM) {
            match preceding[i].text(code) {
                Some(text) => {
                    let ghost before = attributes.deep_view();
                    attributes.push(text);
                    assert(attributes.deep_view() =~= before + seq![text@]);
                },
                None => {},
            }
        }
        i = i + 1;
    }
    assert(run.take(i - start) == run);
    attributes
}

/// Where the source of the declaration `node` starts when what leads up to
/// it is counted in.
pub fn declaration_start(node: &SyntaxNode, preceding: &[SyntaxNode], code: &str) -> (start: usize)
    ensures
        start == rules::declaration_start(node.deep_view(), trees(preceding@), code@),
{
    proof {
        lemma_trees(preceding@);
    }
    let first = leading_start(preceding, code);
    if first < preceding.len() {
        preceding[first].start_byte
    } else {
        node.start_byte
    }
}

/// The description of the struct declaration `struct_node`, which the
/// siblings `preceding` come before in source order. Its byte range starts
/// with the attribute items and documentation lines that lead up to the
/// declaration.
pub fn extract_struct_info(
    struct_node: &SyntaxNode,
    preceding: &[SyntaxNode],
    source_code: &str,
    file_path: String,
) -> (info: StructInfo)
    ensures
        info.deep_view() == rules::struct_info(
            struct_node.deep_view(),
            trees(preceding@),
            source_code@,
            file_path@,
        ),
{
    StructInfo {
        name: kind_text(struct_node, TYPE_IDENTIFIER, source_code),
        is_pub: is_public(struct_node),
        doc_comment: leading_doc_comment(preceding, source_code),
        attributes: leading_attributes(preceding, source_code),
        fields: struct_fields(struct_node, source_code),
        start_position: declaration_start(struct_node, preceding, source_code),
        end_position: struct_node.extent_end(),
        file_path,
    }
}

/// The record of a parameter.
fn extract_parameter_info(parameter: &SyntaxNode, code: &str) -> (info: ParameterInfo)
    ensures
        info.deep_view() == rules::parameter_info(parameter.deep_view(), code@),
{
    ParameterInfo {
        name: kind_text(parameter, IDENTIFIER, code),
        type_text: field_text(parameter, FIELD_TYPE, code),
    }
}

/// The records of the parameters among the children of `list`.
fn collect_parameters(list: &SyntaxNode, code: &str) -> (parameters: Vec<ParameterInfo>)
    ensures
        parameters.deep_view() == rules::parameter_infos(list.deep_view().children, code@),
{
    proof {
        lemma_children_view(list);
    }
    let ghost entries = list.deep_view().children;
    let mut parameters: Vec<ParameterInfo> = Vec::new();
    let mut i: usize = 0;
    assert(parameters.deep_view() =~= rules::parameter_infos(entries.take(0), code@));
    while i < list.children.len()
        invariant
            i <= list.children@.len(),
            entries == list.deep_view().children,
            models(entries, list.children@),
            parameters.deep_view() == rules::parameter_infos(entries.take(i as int), code@),
        decreases list.children@.len() - i,
    {
        let entry = &list.children[i];
        assert(entries.take(i + 1).drop_last() == entries.take(i as int));
        if entry.is_kind(PARAMETER) {
            let info = extract_parameter_info(entry, code);
            let ghost before = parameters.deep_view();
            parameters.push(info);
            assert(parameters.deep_view() =~= before + seq![info.deep_view()]);
        }
        i = i + 1;
    }
    assert(entries.take(i as int) == entries);
    parameters
}

/// The record of the function declaration `node`.
pub fn extract_function_info(node: &SyntaxNode, code: &str, file_path: String) -> (info:
    FunctionInfo)
    ensures
        info.deep_view() == rules::function_info(node.deep_view(), code@, file_path@),
{
    let mut parameters: Vec<ParameterInfo> = Vec::new();
    let mut is_method = false;
    assert(parameters.deep_view() =~= Seq::empty());
    match node.child_by_field_name(FIELD_PARAMETERS) {
        Some(list) => {
            parameters = collect_parameters(list, code);
            is_method = list.has_child_of_kind(SELF_PARAMETER);
        },
        None => {},
    }
    let return_type = match node.child_by_field_name(FIELD_RETURN_TYPE) {
        Some(ty) => ty.text(code),
        None => None,
    };
    FunctionInfo {
        name: kind_text(node, IDENTIFIER, code),
        parameters,
        return_type,
        is_pub: is_public(node),
        is_method,
        start_position: node.start_byte,
        end_position: node.extent_end(),
        file_path,
    }
}

/// The types of the unnamed fields among the children of `list`.
fn collect_tuple_types(list: &SyntaxNode, code: &str) -> (types: Vec<String>)
    ensures
        types.deep_view() == rules::tuple_types(list.deep_view().children, code@),
{
    proof {
        lemma_children_view(list);
    }
    let ghost entries = list.deep_view().children;
    let mut types: Vec<String> = Vec::new();
    let mut i: usize = 0;
    assert(types.deep_view() =~= rules::tuple_types(entries.take(0), code@));
    while i < list.children.len()
        invariant
            i <= list.children@.len(),
            entries == list.deep_view().children,
            models(entries, list.children@),
            types.deep_view() == rules::tuple_types(entries.take(i as int), code@),
        decreases list.children@.len() - i,
    {
        let entry = &list.children[i];
        assert(entries.take(i + 1).drop_last() == entries.take(i as int));
        if entry.is_in_field(FIELD_TYPE) {
            match entry.text(code) {
                Some(text) => {
                    let ghost before = types.deep_view();
                    types.push(text);
                    assert(types.deep_view() =~= before + seq![text@]);
                },
                None => {},
            }
        }
        i = i + 1;
    }
    assert(entries.take(i as int) == entries);
    types
}

/// The names and types of the named fields among the children of `list`.
fn collect_named_fields(list: &SyntaxNode, code: &str) -> (fields: Vec<(String, String)>)
    ensures
        fields.deep_view() == rules::named_fields(list.deep_view().children, code@),
{
    proof {
        lemma_children_view(list);
    }
    let ghost entries = list.deep_view().children;
    let mut fields: Vec<(String, String)> = Vec::new();
    let mut i: usize = 0;
    assert(fields.deep_view() =~= rules::named_fields(entries.take(0), code@));
    while i < list.children.len()
        invariant
            i <= list.children@.len(),
            entries == list.deep_view().children,
            models(entries, list.children@),
            fields.deep_view() == rules::named_fields(entries.take(i as int), code@),
        decreases list.children@.len() - i,
    {
        let entry = &list.children[i];
        assert(entries.take(i + 1).drop_last() == entries.take(i as int));
        if entry.is_kind(FIELD_DECLARATION) {
            let name = kind_text(entry, FIELD_IDENTIFIER, code);
            let ty = field_text(entry, FIELD_TYPE, code);
            let ghost before = fields.deep_view();
            fields.push((name, ty));
            assert(fields.deep_view() =~= before + seq![(name@, ty@)]);
        }
        i = i + 1;
    }
    assert(entries.take(i as int) == entries);
    fields
}

/// The shape of the payload of the variant `variant`.
fn variant_shape(variant: &SyntaxNode, code: &str) -> (shape: EnumVariantType)
    ensures
        shape.deep_view() == rules::variant_shape(variant.deep_view().children, code@),
{
    proof {
        lemma_children_view(variant);
    }
    let ghost children = variant.deep_view().children;
    let mut i: usize = variant.children.len();
    assert(children.take(i as int) == children);
    while i > 0
        invariant
            i <= variant.children@.len(),
            children == variant.deep_view().children,
            models(children, variant.children@),
            rules::variant_shape(children, code@) == rules::variant_shape(
                children.take(i as int),
                code@,
            ),
        decreases i,
    {
        let child = &variant.children[i - 1];
        assert(children.take(i as int).drop_last() == children.take(i - 1));
        if child.is_kind(ORDERED_FIELD_DECLARATION_LIST) {
            return EnumVariantType::Tuple(collect_tuple_types(child, code));
        }
        if child.is_kind(FIELD_DECLARATION_LIST) {
            return EnumVariantType::Struct(collect_named_fields(child, code));
        }
        i = i - 1;
    }
    EnumVariantType::Unit
}

/// The record of the enum variant `node`.
pub fn extract_enum_variant(node: &SyntaxNode, code: &str) -> (info: EnumVariantInfo)
    ensures
        info.deep_view() == rules::variant_info(node.deep_view(), code@),
{
    EnumVariantInfo {
        name: field_text(node, FIELD_NAME, code),
        variant_type: variant_shape(node, code),
    }
}

/// The records of the variants among the children of `body`.
fn collect_variants(body: &SyntaxNode, code: &str) -> (variants: Vec<EnumVariantInfo>)
    ensures
        variants.deep_view() == rules::variant_infos(body.deep_view().children, code@),
{
    proof {
        lemma_children_view(body);
    }
    let ghost entries = body.deep_view().children;
    let mut variants: Vec<EnumVariantInfo> = Vec::new();
    let mut i: usize = 0;
    assert(variants.deep_view() =~= rules::variant_infos(entries.take(0), code@));
    while i < body.children.len()
        invariant
            i <= body.children@.len(),
            entries == body.deep_view().children,
            models(entries, body.children@),
            variants.deep_view() == rules::variant_infos(entries.take(i as int), code@),
        decreases body.children@.len() - i,
    {
        let entry = &body.children[i];
        assert(entries.take(i + 1).drop_last() == entries.take(i as int));
        if entry.is_kind(ENUM_VARIANT) {
            let info = extract_enum_variant(entry, code);
            let ghost before = variants.deep_view();
            variants.push(info);
            assert(variants.deep_view() =~= before + seq![info.deep_view()]);
        }
        i = i + 1;
    }
    assert(entries.take(i as int) == entries);
    variants
}

/// The record of the enum declaration `node`.
pub fn extract_enum_info(node: &SyntaxNode, code: &str, file_path: String) -> (info: EnumInfo)
    ensures
        info.deep_view() == rules::enum_info(node.deep_view(), code@, file_path@),
{
    let variants = match node.child_by_field_name(FIELD_BODY) {
        Some(body) => collect_variants(body, code),
        None => {
            let variants: Vec<EnumVariantInfo> = Vec::new();
            assert(variants.deep_view() =~= Seq::empty());
            variants
        },
    };
    EnumInfo {
        name: field_text(node, FIELD_NAME, code),
        variants,
        is_pub: is_public(node),
        start_position: node.start_byte,
        end_position: node.extent_end(),
        file_path,
    }
}

/// The record of the module declaration `node`.
pub fn extract_mod_info(node: &SyntaxNode, code: &str, file_path: String) -> (info: ModInfo)
    ensures
        info.deep_view() == rules::mod_info(node.deep_view(), code@, file_path@),
{
    ModInfo {
        name: kind_text(node, IDENTIFIER, code),
        is_pub: is_public(node),
        start_position: node.start_byte,
        end_position: node.extent_end(),
        file_path,
    }
}

/// The record of the macro invocation `node`.
pub fn extract_macro_info(node: &SyntaxNode, code: &str, file_path: String) -> (info: MacroInfo)
    ensures
        info.deep_view() == rules::macro_info(node.deep_view(), code@, file_path@),
{
    MacroInfo {
        name: field_text(node, FIELD_MACRO, code),
        start_position: node.start_byte,
        end_position: node.extent_end(),
        file_path,
    }
}

/// The record of the impl block `impl_node`.
pub fn extract_impl_info(impl_node: &SyntaxNode, source_code: &str, file_path: String) -> (info:
    ImplInfo)
    ensures
        info.deep_view() == rules::impl_info(impl_node.deep_view(), source_code@, file_path@),
{
    ImplInfo {
        name: field_text(impl_node, FIELD_TYPE, source_code),
        is_pub: is_public(impl_node),
        start_position: impl_node.start_byte,
        end_position: impl_node.extent_end(),
        file_path,
    }
}

/// The record of the type alias `node`, which the siblings `preceding`
/// come before in source order.
pub fn extract_type_alias_info(
    node: &SyntaxNode,
    preceding: &[SyntaxNode],
    code: &str,
    file_path: String,
) -> (info: TypeAliasInfo)
    ensures
        info.deep_view() == rules::type_alias_info(
            node.deep_view(),
            trees(preceding@),
            code@,
            file_path@,
        ),
{
    TypeAliasInfo {
        name: field_text(node, FIELD_NAME, code),
        aliased_type: field_text(node, FIELD_TYPE, code),
        is_pub: is_public(node),
        attributes: leading_attributes(preceding, code),
        start_position: node.start_byte,
        end_position: node.extent_end(),
        file_path,
    }
}

/// Whether `node` is made of path segments further down.
fn is_path_group(node: &SyntaxNode) -> (group: bool)
    ensures
        group == rules::is_path_group(node.deep_view().kind),
{
    node.is_kind(SCOPED_IDENTIFIER) || node.is_kind(SCOPED_USE_LIST) || node.is_kind(USE_LIST)
}

/// Appends the identifiers that make up the path `node` to `segments`.
pub fn extract_path_segments(node: &SyntaxNode, code: &str, segments: &mut Vec<String>)
    ensures
        final(segments).deep_view() == old(segments).deep_view() + rules::path_segments(
            node.deep_view(),
            code@,
        ),
    decreases node,
{
    let ghost start = segments.deep_view();
    if node.is_kind(IDENTIFIER) {
        match node.text(code) {
            Some(text) => {
                segments.push(text);
                assert(segments.deep_view() =~= start + seq![text@]);
            },
            None => {
                assert(segments.deep_view() =~= start + Seq::<Seq<char>>::empty());
            },
        }
    } else if is_path_group(node) {
        proof {
            lemma_children_view(node);
        }
        let ghost children = node.deep_view().children;
        let mut i: usize = 0;
        assert(segments.deep_view() =~= start + rules::paths_segments(children.take(0), code@));
        while i < node.children.len()
            invariant
                i <= node.children@.len(),
                children == node.deep_view().children,
                models(children, node.children@),
                segments.deep_view() == start + rules::paths_segments(
                    children.take(i as int),
                    code@,
                ),
            decreases node.children@.len() - i,
        {
            assert(children.take(i + 1).drop_last() == children.take(i as int));
            let ghost before = rules::paths_segments(children.take(i as int), code@);
            let ghost added = rules::path_segments(children[i as int], code@);
            extract_path_segments(&node.children[i], code, segments);
            assert(segments.deep_view() =~= start + (before + added));
            i = i + 1;
        }
        assert(children.take(i as int) == children);
    } else {
        assert(segments.deep_view() =~= start + Seq::<Seq<char>>::empty());
    }
}

/// The segments of the use declaration `node`.
pub fn extract_use_segments(node: &SyntaxNode, code: &str) -> (segments: Vec<String>)
    ensures
        segments.deep_view() == rules::use_segments(node.deep_view().children, code@),
{
    proof {
        lemma_children_view(node);
    }
    let ghost children = node.deep_view().children;
    let mut segments: Vec<String> = Vec::new();
    let mut i: usize = 0;
    assert(segments.deep_view() =~= rules::use_segments(children.take(0), code@));
    while i < node.children.len()
        invariant
            i <= node.children@.len(),
            children == node.deep_view().children,
            models(children, node.children@),
            segments.deep_view() == rules::use_segments(children.take(i as int), code@),
        decreases node.children@.len() - i,
    {
        let child = &node.children[i];
        assert(children.take(i + 1).drop_last() == children.take(i as int));
        let ghost before = segments.deep_view();
        if child.is_kind(IDENTIFIER) || is_path_group(child) {
            extract_path_segments(child, code, &mut segments);
        } else if child.is_kind(USE_WILDCARD) {
            segments.push(WILDCARD_SEGMENT.to_owned());
            assert(segments.deep_view() =~= before + seq![WILDCARD_SEGMENT@]);
        } else {
            assert(segments.deep_view() =~= before + Seq::<Seq<char>>::empty());
        }
        i = i + 1;
    }
    assert(children.take(i as int) == children);
    segments
}

/// The new name that the use declaration `node` gives its import.
fn use_alias(node: &SyntaxNode, code: &str) -> (alias: Option<String>)
    ensures
        alias.deep_view() == rules::use_alias(node.deep_view(), code@),
{
    match node.last_child_of_kind(USE_AS_CLAUSE) {
        Some(clause) => match clause.child_by_field_name(FIELD_ALIAS) {
            Some(alias) => alias.text(code),
            None => None,
        },
        None => None,
    }
}

/// The record of the use declaration `node`.
pub fn extract_use_dependency_info(node: &SyntaxNode, code: &str, file_path: String) -> (info:
    UseDependencyInfo)
    ensures
        info.deep_view() == rules::use_dependency_info(node.deep_view(), code@, file_path@),
{
    UseDependencyInfo {
        segments: extract_use_segments(node, code),
        alias: use_alias(node, code),
        is_pub: is_public(node),
        start_position: node.start_byte,
        end_position: node.extent_end(),
        file_path,
    }
}

} // verus!
