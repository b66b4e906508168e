use parser::extract::{
    declaration_start, extract_enum_variant, extract_field_info, extract_function_info,
    extract_impl_info, extract_path_segments, extract_struct_info, extract_type_alias_info,
    extract_use_segments, field_text, is_public, kind_text,
};
use parser::extractors::{FunctionInfoExtractor, StructInfoExtractor};
use parser::records::EnumVariantType;
use parser::store::ExtractedData;
use parser::syntax::SyntaxNode;
use parser::traverse::{extract_results, traverse_tree, InfoExtractor};

fn leaf(kind: &str, start: usize, end: usize) -> SyntaxNode {
    SyntaxNode::new(kind, start, end, Vec::new())
}

#[test]
fn new_node_holds_what_it_was_given() {
    let node = SyntaxNode::new("parameters", 3, 9, vec![leaf("parameter", 4, 8)]);
    assert_eq!(node.kind, "parameters");
    assert_eq!(node.field_name, None);
    assert_eq!((node.start_byte, node.end_byte), (3, 9));
    assert_eq!(node.children.len(), 1);
    let held = node.in_field("parameters");
    assert_eq!(held.field_name.as_deref(), Some("parameters"));
    assert_eq!(held.kind, "parameters");
    assert_eq!((held.start_byte, held.end_byte), (3, 9));
    assert_eq!(held.children.len(), 1);
}

#[test]
fn kind_and_field_are_compared_by_content() {
    let node = leaf("identifier", 0, 1).in_field("name");
    assert!(node.is_kind("identifier"));
    assert!(!node.is_kind("type_identifier"));
    assert!(node.is_in_field("name"));
    assert!(!node.is_in_field("type"));
    assert!(!leaf("identifier", 0, 1).is_in_field("name"));
}

#[test]
fn text_of_a_node_is_its_byte_range() {
    let code = "struct Abc;";
    assert_eq!(leaf("type_identifier", 7, 10).text(code), Some("Abc".to_string()));
    assert_eq!(leaf("type_identifier", 7, 12).text(code), None);
    assert_eq!(leaf("type_identifier", 8, 7).text(code), None);
}

#[test]
fn last_child_of_a_kind_wins() {
    let node = SyntaxNode::new(
        "x",
        0,
        9,
        vec![leaf("identifier", 0, 1), leaf("other", 1, 2), leaf("identifier", 2, 3), leaf("other", 3, 4)],
    );
    assert_eq!(node.last_index_of_kind("identifier"), Some(2));
    assert_eq!(node.last_index_of_kind("other"), Some(3));
    assert_eq!(node.last_index_of_kind("missing"), None);
    assert_eq!(node.last_child_of_kind("identifier").map(|c| c.start_byte), Some(2));
    assert!(node.last_child_of_kind("missing").is_none());
    assert!(node.has_child_of_kind("other"));
    assert!(!node.has_child_of_kind("missing"));
    assert_eq!(kind_text(&node, "identifier", "abcdefghi"), "c");
    assert_eq!(kind_text(&node, "missing", "abcdefghi"), "");
}

#[test]
fn first_child_in_a_field_wins() {
    let node = SyntaxNode::new(
        "x",
        0,
        9,
        vec![
            leaf("a", 0, 1),
            leaf("b", 1, 2).in_field("type"),
            leaf("c", 2, 3).in_field("type"),
            leaf("d", 3, 4).in_field("name"),
        ],
    );
    assert_eq!(node.child_by_field_name("type").map(|c| c.kind.as_str()), Some("b"));
    assert_eq!(node.child_by_field_name("name").map(|c| c.kind.as_str()), Some("d"));
    assert!(node.child_by_field_name("body").is_none());
    assert_eq!(field_text(&node, "type", "abcdefghi"), "b");
    assert_eq!(field_text(&node, "body", "abcdefghi"), "");
}

#[test]
fn extent_reaches_the_largest_end_among_node_and_children() {
    let inside = SyntaxNode::new("x", 2, 10, vec![leaf("a", 2, 4), leaf("b", 5, 9)]);
    assert_eq!(inside.extent_end(), 10);
    let beyond = SyntaxNode::new("x", 2, 10, vec![leaf("a", 2, 14), leaf("b", 5, 12)]);
    assert_eq!(beyond.extent_end(), 14);
    assert_eq!(leaf("x", 2, 10).extent_end(), 10);
}

#[test]
fn record_end_covers_a_child_that_the_node_under_reports() {
    let code = "impl Abc { }    ";
    let node = SyntaxNode::new(
        "impl_item",
        0,
        8,
        vec![leaf("type_identifier", 5, 8).in_field("type"), leaf("declaration_list", 9, 12)],
    );
    let info = extract_impl_info(&node, code, "f.rs".to_string());
    assert_eq!(info.name, "Abc");
    assert_eq!(info.start_position, 0);
    assert_eq!(info.end_position, 12);
    assert_eq!(info.file_path, "f.rs");
    assert!(!info.is_pub);
}

#[test]
fn visibility_is_a_direct_child() {
    let public = SyntaxNode::new("mod_item", 0, 3, vec![leaf("visibility_modifier", 0, 3)]);
    assert!(is_public(&public));
    let nested = SyntaxNode::new("mod_item", 0, 3, vec![public]);
    assert!(!is_public(&nested));
    assert!(!is_public(&leaf("mod_item", 0, 3)));
}

#[test]
fn missing_children_leave_defaults() {
    let code = "struct";
    let node = leaf("struct_item", 0, 6);
    let info = extract_struct_info(&node, &[], code, "a.rs".to_string());
    assert_eq!(info.name, "");
    assert!(!info.is_pub);
    assert_eq!(info.doc_comment, None);
    assert!(info.attributes.is_empty());
    assert!(info.fields.is_empty());
    assert_eq!((info.start_position, info.end_position), (0, 6));
    let function = extract_function_info(&leaf("function_item", 0, 6), code, "a.rs".to_string());
    assert_eq!(function.name, "");
    assert!(function.parameters.is_empty());
    assert_eq!(function.return_type, None);
    assert!(!function.is_method);
}

#[test]
fn unreadable_text_leaves_the_field_at_its_default() {
    let code = "s \u{e9}";
    let node = SyntaxNode::new("struct_item", 0, 4, vec![leaf("type_identifier", 3, 4)]);
    let info = extract_struct_info(&node, &[], code, "a.rs".to_string());
    assert_eq!(info.name, "");
    let field = SyntaxNode::new(
        "field_declaration",
        0,
        4,
        vec![leaf("field_identifier", 0, 1), leaf("primitive_type", 2, 9).in_field("type")],
    );
    let field_info = extract_field_info(&field, code);
    assert_eq!(field_info.name, "s");
    assert_eq!(field_info.type_text, "");
    assert!(!field_info.is_pub);
}

#[test]
fn leading_siblings_are_read_backwards_until_the_run_breaks() {
    let code = "/// one\n#[a]\nfn f(){}\n/// two\n#[b]\n/// three\nstruct S;";
    let preceding = vec![
        leaf("line_comment", 0, 8),
        leaf("attribute_item", 8, 12),
        leaf("function_item", 13, 21),
        leaf("line_comment", 22, 30),
        leaf("attribute_item", 30, 34),
        leaf("line_comment", 35, 45),
    ];
    let node = SyntaxNode::new("struct_item", 45, 54, vec![leaf("type_identifier", 52, 53)]);
    let info = extract_struct_info(&node, &preceding, code, "a.rs".to_string());
    assert_eq!(info.name, "S");
    assert_eq!(info.doc_comment, Some("/// two\n/// three".to_string()));
    assert_eq!(info.attributes, vec!["#[b]".to_string()]);
    assert_eq!(info.start_position, 22);
    assert_eq!(info.end_position, 54);
    assert_eq!(declaration_start(&node, &preceding, code), 22);
    assert_eq!(declaration_start(&node, &preceding[..3], code), 45);
    assert_eq!(declaration_start(&node, &[], code), 45);
}

#[test]
fn struct_record_of_the_index_starts_at_the_declaration() {
    let code = "#[a]\nstruct S;";
    let preceding = vec![leaf("attribute_item", 0, 4)];
    let node = SyntaxNode::new("struct_item", 5, 14, vec![leaf("type_identifier", 12, 13)]);
    let described = extract_struct_info(&node, &preceding, code, "a.rs".to_string());
    assert_eq!((described.start_position, described.end_position), (0, 14));
    let mut data = ExtractedData::new();
    StructInfoExtractor {}.extract(&node, &preceding, code, "a.rs".to_string(), &mut data);
    assert_eq!(data.structs.len(), 1);
    assert_eq!((data.structs[0].start_position, data.structs[0].end_position), (5, 14));
    assert_eq!(data.structs[0].attributes, vec!["#[a]".to_string()]);
    assert_eq!(data.structs[0].name, "S");
}

#[test]
fn type_alias_reads_the_attribute_items_that_lead_up_to_it() {
    let code = "#[a]\n/// d\n#[b]\ntype T = U;";
    let preceding = vec![
        leaf("attribute_item", 0, 4),
        leaf("line_comment", 5, 11),
        leaf("attribute_item", 11, 15),
    ];
    let node = SyntaxNode::new(
        "type_item",
        16,
        27,
        vec![
            leaf("type_identifier", 21, 22).in_field("name"),
            leaf("type_identifier", 25, 26).in_field("type"),
            leaf("attribute", 0, 4),
        ],
    );
    let info = extract_type_alias_info(&node, &preceding, code, "a.rs".to_string());
    assert_eq!(info.name, "T");
    assert_eq!(info.aliased_type, "U");
    assert_eq!(info.attributes, vec!["#[a]".to_string(), "#[b]".to_string()]);
    assert_eq!((info.start_position, info.end_position), (16, 27));
    let alone = extract_type_alias_info(&node, &[], code, "a.rs".to_string());
    assert!(alone.attributes.is_empty());
}

#[test]
fn variant_shape_is_that_of_the_last_list() {
    let code = "V(u8){a:u8}";
    let tuple = SyntaxNode::new(
        "ordered_field_declaration_list",
        1,
        5,
        vec![leaf("(", 1, 2), leaf("primitive_type", 2, 4).in_field("type"), leaf(")", 4, 5)],
    );
    let record = SyntaxNode::new(
        "field_declaration_list",
        5,
        11,
        vec![SyntaxNode::new(
            "field_declaration",
            6,
            10,
            vec![leaf("field_identifier", 6, 7), leaf("primitive_type", 8, 10).in_field("type")],
        )],
    );
    let name = leaf("identifier", 0, 1).in_field("name");
    let both = SyntaxNode::new("enum_variant", 0, 11, vec![name, tuple, record]);
    let info = extract_enum_variant(&both, code);
    assert_eq!(info.name, "V");
    assert!(matches!(
        &info.variant_type,
        EnumVariantType::Struct(fields) if *fields == vec![("a".to_string(), "u8".to_string())]
    ));
    let unit = SyntaxNode::new(
        "enum_variant",
        0,
        1,
        vec![leaf("identifier", 0, 1).in_field("name"), leaf("identifier", 4, 5).in_field("value")],
    );
    let info = extract_enum_variant(&unit, code);
    assert_eq!(info.name, "V");
    assert!(matches!(info.variant_type, EnumVariantType::Unit));
}

#[test]
fn path_segments_are_appended_to_what_is_there() {
    let code = "a::b";
    let path = SyntaxNode::new(
        "scoped_identifier",
        0,
        4,
        vec![leaf("identifier", 0, 1), leaf("::", 1, 3), leaf("identifier", 3, 4)],
    );
    let mut segments = vec!["x".to_string()];
    extract_path_segments(&path, code, &mut segments);
    assert_eq!(segments, vec!["x".to_string(), "a".to_string(), "b".to_string()]);
    extract_path_segments(&leaf("crate", 0, 1), code, &mut segments);
    assert_eq!(segments.len(), 3);
    let declaration = SyntaxNode::new(
        "use_declaration",
        0,
        4,
        vec![leaf("use", 0, 0), path, leaf("use_wildcard", 0, 4)],
    );
    assert_eq!(
        extract_use_segments(&declaration, code),
        vec!["a".to_string(), "b".to_string(), "*".to_string()]
    );
}

#[test]
fn extractor_leaves_a_node_of_another_kind_alone() {
    let code = "struct S;";
    let node = SyntaxNode::new("struct_item", 0, 9, vec![leaf("type_identifier", 7, 8)]);
    let mut data = ExtractedData::new();
    FunctionInfoExtractor {}.extract(&node, &[], code, "a.rs".to_string(), &mut data);
    assert!(data.functions.is_empty());
    assert!(data.structs.is_empty());
    StructInfoExtractor {}.extract(&node, &[], code, "a.rs".to_string(), &mut data);
    assert_eq!(data.structs.len(), 1);
    assert_eq!(data.structs[0].name, "S");
    assert_eq!(StructInfoExtractor {}.node_kind(), "struct_item");
    assert_eq!(FunctionInfoExtractor {}.node_kind(), "function_item");
}

#[test]
fn every_matching_extractor_of_the_registry_is_called_once() {
    let code = "struct S;";
    let node = SyntaxNode::new("struct_item", 0, 9, vec![leaf("type_identifier", 7, 8)]);
    let first = StructInfoExtractor {};
    let second = StructInfoExtractor {};
    let other = FunctionInfoExtractor {};
    let extractors: Vec<&dyn InfoExtractor> = vec![&first, &other, &second];
    let mut data = ExtractedData::new();
    extract_results(&node, &[], code, &extractors, &"a.rs".to_string(), &mut data);
    assert_eq!(data.structs.len(), 2);
    assert!(data.functions.is_empty());
}

#[test]
fn walk_descends_into_a_node_that_was_taken() {
    let code = "fn a(){fn b(){}}";
    let inner = SyntaxNode::new("function_item", 7, 15, vec![leaf("identifier", 10, 11)]);
    let block = SyntaxNode::new("block", 6, 16, vec![inner]);
    let outer = SyntaxNode::new("function_item", 0, 16, vec![leaf("identifier", 3, 4), block]);
    let functions = FunctionInfoExtractor {};
    let extractors: Vec<&dyn InfoExtractor> = vec![&functions];
    let mut data = ExtractedData::new();
    traverse_tree(&outer, code, &extractors, "a.rs".to_string(), &mut data);
    let names: Vec<&str> = data.functions.iter().map(|f| f.name.as_str()).collect();
    assert_eq!(names, vec!["a", "b"]);
    let none: Vec<&dyn InfoExtractor> = Vec::new();
    traverse_tree(&outer, code, &none, "a.rs".to_string(), &mut data);
    assert_eq!(data.functions.len(), 2);
}

#[test]
fn walk_hands_each_struct_the_siblings_before_it() {
    let code = "/// a\nstruct A;/// b\nstruct B;";
    let root = SyntaxNode::new(
        "source_file",
        0,
        30,
        vec![
            leaf("line_comment", 0, 6),
            SyntaxNode::new("struct_item", 6, 15, vec![leaf("type_identifier", 13, 14)]),
            leaf("line_comment", 15, 21),
            SyntaxNode::new("struct_item", 21, 30, vec![leaf("type_identifier", 28, 29)]),
        ],
    );
    let structs = StructInfoExtractor {};
    let extractors: Vec<&dyn InfoExtractor> = vec![&structs];
    let mut data = ExtractedData::new();
    traverse_tree(&root, code, &extractors, "a.rs".to_string(), &mut data);
    assert_eq!(data.structs.len(), 2);
    assert_eq!(data.structs[0].doc_comment, Some("/// a".to_string()));
    assert_eq!(data.structs[1].doc_comment, Some("/// b".to_string()));
}

#[test]
fn tree_is_legible_when_every_range_can_be_read() {
    let code = "a\u{e9}b";
    let good = SyntaxNode::new("x", 0, 4, vec![leaf("a", 0, 1), leaf("b", 1, 3), leaf("c", 3, 4)]);
    assert!(good.is_legible(code));
    let split = SyntaxNode::new("x", 0, 4, vec![leaf("a", 0, 2)]);
    assert!(!split.is_legible(code));
    let deep = SyntaxNode::new("x", 0, 4, vec![SyntaxNode::new("y", 0, 4, vec![leaf("a", 3, 5)])]);
    assert!(!deep.is_legible(code));
    let root = SyntaxNode::new("x", 0, 5, vec![leaf("a", 0, 1)]);
    assert!(!root.is_legible(code));
    assert!(leaf("x", 0, 0).is_legible(""));
}
