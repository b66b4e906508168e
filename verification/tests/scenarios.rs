use parser::extractors::{
    EnumInfoExtractor, FunctionInfoExtractor, ImplInfoExtractor, MacroInfoExtractor,
    ModInfoExtractor, StructInfoExtractor, TypeAliasInfoExtractor, UseDependencyInfoExtractor,
};
use parser::extract::extract_struct_info;
use parser::index::index_source;
use parser::parse::parse_source;
use parser::print_blocks::PrintBlock;
use parser::records::EnumVariantType;
use parser::store::ExtractedData;
use parser::traverse::InfoExtractor;

const PATH: &str = "/project/src/lib.rs";

fn index_text(code: &str) -> ExtractedData {
    let structs = StructInfoExtractor {};
    let functions = FunctionInfoExtractor {};
    let aliases = TypeAliasInfoExtractor {};
    let impls = ImplInfoExtractor {};
    let uses = UseDependencyInfoExtractor {};
    let mods = ModInfoExtractor {};
    let enums = EnumInfoExtractor {};
    let macros = MacroInfoExtractor {};
    let extractors: Vec<&dyn InfoExtractor> =
        vec![&structs, &functions, &aliases, &impls, &uses, &mods, &enums, &macros];
    let mut data = ExtractedData::new();
    index_source(code, &extractors, PATH.to_string(), &mut data).expect("the text parses");
    data
}

fn texts(items: &[&str]) -> Vec<String> {
    items.iter().map(|s| s.to_string()).collect()
}

#[test]
fn public_struct_with_two_fields() {
    let code = "pub struct Point { pub x: i32, y: i32 }";
    let data = index_text(code);
    assert_eq!(data.structs.len(), 1);
    let point = &data.structs[0];
    assert_eq!(point.name, "Point");
    assert!(point.is_pub);
    assert_eq!(point.fields.len(), 2);
    assert_eq!(point.fields[0].name, "x");
    assert_eq!(point.fields[0].type_text, "i32");
    assert!(point.fields[0].is_pub);
    assert_eq!(point.fields[1].name, "y");
    assert_eq!(point.fields[1].type_text, "i32");
    assert!(!point.fields[1].is_pub);
    assert_eq!(point.start_position, 0);
    assert_eq!(point.end_position, code.len());
    assert_eq!(point.file_path, PATH);
    assert_eq!(point.doc_comment, None);
    assert!(point.attributes.is_empty());
    assert!(data.functions.is_empty());
    assert!(data.enums.is_empty());
}

#[test]
fn private_function_with_two_parameters() {
    let code = "fn add(a: i32, b: i32) -> i32 { a + b }";
    let data = index_text(code);
    assert_eq!(data.functions.len(), 1);
    let add = &data.functions[0];
    assert_eq!(add.name, "add");
    assert!(!add.is_pub);
    assert!(!add.is_method);
    assert_eq!(add.parameters.len(), 2);
    assert_eq!(add.parameters[0].name, "a");
    assert_eq!(add.parameters[0].type_text, "i32");
    assert_eq!(add.parameters[1].name, "b");
    assert_eq!(add.parameters[1].type_text, "i32");
    assert_eq!(add.return_type, Some("i32".to_string()));
    assert_eq!(add.start_position, 0);
    assert_eq!(add.end_position, code.len());
}

#[test]
fn use_group_gives_one_record_for_the_declaration() {
    let code = "use std::collections::{HashMap, HashSet as Set};";
    let data = index_text(code);
    assert_eq!(data.use_dependencies.len(), 1);
    let import = &data.use_dependencies[0];
    assert_eq!(import.segments, texts(&["std", "collections", "HashMap"]));
    assert_eq!(import.alias, None);
    assert!(!import.is_pub);
    assert_eq!(import.start_position, 0);
    assert_eq!(import.end_position, code.len());
}

#[test]
fn enum_with_three_variant_shapes() {
    let code = "enum Shape { Circle(f64), Square { side: f64 }, Empty }";
    let data = index_text(code);
    assert_eq!(data.enums.len(), 1);
    let shape = &data.enums[0];
    assert_eq!(shape.name, "Shape");
    assert!(!shape.is_pub);
    assert_eq!(shape.variants.len(), 3);
    assert_eq!(shape.variants[0].name, "Circle");
    assert!(matches!(
        &shape.variants[0].variant_type,
        EnumVariantType::Tuple(types) if *types == texts(&["f64"])
    ));
    assert_eq!(shape.variants[1].name, "Square");
    assert!(matches!(
        &shape.variants[1].variant_type,
        EnumVariantType::Struct(fields) if *fields == vec![("side".to_string(), "f64".to_string())]
    ));
    assert_eq!(shape.variants[2].name, "Empty");
    assert!(matches!(&shape.variants[2].variant_type, EnumVariantType::Unit));
}

#[test]
fn tuple_variant_keeps_the_order_of_its_types() {
    let data = index_text("pub enum E { A(u8, String, Vec<u8>), B { x: u8, y: Option<u8> } }");
    let e = &data.enums[0];
    assert!(e.is_pub);
    assert!(matches!(
        &e.variants[0].variant_type,
        EnumVariantType::Tuple(types) if *types == texts(&["u8", "String", "Vec<u8>"])
    ));
    assert!(matches!(
        &e.variants[1].variant_type,
        EnumVariantType::Struct(fields) if *fields == vec![
            ("x".to_string(), "u8".to_string()),
            ("y".to_string(), "Option<u8>".to_string()),
        ]
    ));
}

#[test]
fn variant_with_a_named_value_keeps_its_own_name() {
    let data = index_text("const B: isize = 2;\nenum E { A = B, C = 3 }");
    let names: Vec<&str> = data.enums[0].variants.iter().map(|v| v.name.as_str()).collect();
    assert_eq!(names, vec!["A", "C"]);
    assert!(matches!(&data.enums[0].variants[0].variant_type, EnumVariantType::Unit));
}

#[test]
fn struct_with_doc_comment_and_attributes() {
    let code = "// plain\n/// A point.\n///   In the plane.  \n#[derive(Debug)]\n#[repr(C)]\npub struct P { x: u8 }\n";
    let data = index_text(code);
    assert_eq!(data.structs.len(), 1);
    let p = &data.structs[0];
    assert_eq!(p.name, "P");
    assert_eq!(p.doc_comment, Some("/// A point.\n///   In the plane.".to_string()));
    assert_eq!(p.attributes, texts(&["#[derive(Debug)]", "#[repr(C)]"]));
    assert_eq!(&code[p.start_position..p.end_position], "pub struct P { x: u8 }");
}

#[test]
fn plain_comment_ends_the_leading_run() {
    let code = "/// Lost.\n// plain\n/// Kept.\nstruct S;";
    let data = index_text(code);
    assert_eq!(data.structs[0].doc_comment, Some("/// Kept.".to_string()));
    assert!(!data.structs[0].is_pub);
}

#[test]
fn struct_without_leading_siblings_has_no_doc_comment() {
    let data = index_text("fn f() {}\nstruct S;");
    assert_eq!(data.structs[0].doc_comment, None);
    assert!(data.structs[0].attributes.is_empty());
    assert!(data.structs[0].fields.is_empty());
}

#[test]
fn struct_name_equals_identifier_text() {
    let data = index_text("struct Alpha;\npub struct Beta<T> { t: T }\nstruct Gamma(u8);");
    let names: Vec<&str> = data.structs.iter().map(|s| s.name.as_str()).collect();
    assert_eq!(names, vec!["Alpha", "Beta", "Gamma"]);
}

#[test]
fn method_has_receiver_and_is_found_inside_impl() {
    let code = "impl Foo { pub fn get(&self, n: usize) -> u8 { 0 } fn make() -> Self { Foo } }";
    let data = index_text(code);
    assert_eq!(data.impls.len(), 1);
    assert_eq!(data.impls[0].name, "Foo");
    assert!(!data.impls[0].is_pub);
    assert_eq!(data.functions.len(), 2);
    let get = &data.functions[0];
    assert_eq!(get.name, "get");
    assert!(get.is_pub);
    assert!(get.is_method);
    assert_eq!(get.parameters.len(), 1);
    assert_eq!(get.parameters[0].name, "n");
    assert_eq!(get.parameters[0].type_text, "usize");
    assert_eq!(get.return_type, Some("u8".to_string()));
    let make = &data.functions[1];
    assert_eq!(make.name, "make");
    assert!(!make.is_method);
    assert!(make.parameters.is_empty());
    assert_eq!(make.return_type, Some("Self".to_string()));
}

#[test]
fn every_form_of_receiver_makes_a_method() {
    let data = index_text(
        "impl S { fn a(self) {} fn b(&self) {} fn c(&mut self) {} fn d(mut self) {} fn e(x: u8) {} }",
    );
    let flags: Vec<bool> = data.functions.iter().map(|f| f.is_method).collect();
    assert_eq!(flags, vec![true, true, true, true, false]);
}

#[test]
fn function_without_return_type_and_with_generic_parameter() {
    let data = index_text("pub fn push(mut items: Vec<u8>, item: &str) {}");
    let push = &data.functions[0];
    assert_eq!(push.return_type, None);
    assert_eq!(push.parameters[0].name, "items");
    assert_eq!(push.parameters[0].type_text, "Vec<u8>");
    assert_eq!(push.parameters[1].name, "item");
    assert_eq!(push.parameters[1].type_text, "&str");
}

#[test]
fn impl_block_names_the_implemented_type() {
    let data = index_text("impl<T> Display for Wrapper<T> {}");
    assert_eq!(data.impls.len(), 1);
    assert_eq!(data.impls[0].name, "Wrapper<T>");
}

#[test]
fn struct_described_with_its_leading_attributes_starts_at_the_first() {
    let code = "#[derive(Debug)]\n#[repr(C)]\npub struct S { pub a: u8 }";
    let root = parse_source(code).expect("the text parses");
    assert_eq!(root.children.len(), 3);
    let node = &root.children[2];
    assert_eq!(node.kind, "struct_item");
    let info = extract_struct_info(node, &root.children[..2], code, PATH.to_string());
    assert_eq!(info.name, "S");
    assert!(info.is_pub);
    assert_eq!(info.attributes, texts(&["#[derive(Debug)]", "#[repr(C)]"]));
    assert_eq!(info.doc_comment, None);
    assert_eq!(info.fields.len(), 1);
    assert_eq!(info.fields[0].name, "a");
    assert_eq!(info.fields[0].type_text, "u8");
    assert!(info.fields[0].is_pub);
    assert_eq!(info.start_position, 0);
    assert_eq!(info.end_position, 54);
    assert_eq!(&code[info.start_position..info.end_position], code);
    let alone = extract_struct_info(node, &[], code, PATH.to_string());
    assert_eq!(alone.start_position, 28);
    let record = &index_text(code).structs[0];
    assert_eq!((record.start_position, record.end_position), (28, 54));
    assert_eq!(record.attributes, texts(&["#[derive(Debug)]", "#[repr(C)]"]));
}

#[test]
fn struct_described_with_its_doc_comment_starts_at_the_comment() {
    let code = "fn f() {}\n/// One.\n/// Two.\n#[a]\nstruct S;";
    let root = parse_source(code).expect("the text parses");
    let at = root.children.len() - 1;
    let info = extract_struct_info(&root.children[at], &root.children[..at], code, PATH.to_string());
    assert_eq!(info.doc_comment, Some("/// One.\n/// Two.".to_string()));
    assert_eq!(info.start_position, 10);
    assert_eq!(
        &code[info.start_position..info.end_position],
        "/// One.\n/// Two.\n#[a]\nstruct S;"
    );
}

#[test]
fn type_alias_has_its_leading_attribute_items() {
    let data = index_text("#[cfg(test)]\n#[allow(dead_code)]\npub type Id = u64;\ntype Other = Id;");
    assert_eq!(data.type_aliases.len(), 2);
    assert_eq!(data.type_aliases[0].attributes, texts(&["#[cfg(test)]", "#[allow(dead_code)]"]));
    assert_eq!(data.type_aliases[0].print_block(&data), Some("pub type Id = u64;".to_string()));
    assert!(data.type_aliases[1].attributes.is_empty());
}

#[test]
fn type_alias_has_name_and_aliased_type() {
    let data = index_text("pub type Id = u64;\ntype Other = Id;");
    assert_eq!(data.type_aliases.len(), 2);
    assert_eq!(data.type_aliases[0].name, "Id");
    assert_eq!(data.type_aliases[0].aliased_type, "u64");
    assert!(data.type_aliases[0].is_pub);
    assert!(data.type_aliases[0].attributes.is_empty());
    assert_eq!(data.type_aliases[1].name, "Other");
    assert_eq!(data.type_aliases[1].aliased_type, "Id");
    assert!(!data.type_aliases[1].is_pub);
}

#[test]
fn module_declarations_are_found_with_what_they_hold() {
    let data = index_text("pub mod outer { mod inner; fn f() {} }");
    assert_eq!(data.mods.len(), 2);
    assert_eq!(data.mods[0].name, "outer");
    assert!(data.mods[0].is_pub);
    assert_eq!(data.mods[1].name, "inner");
    assert!(!data.mods[1].is_pub);
    assert_eq!(data.functions.len(), 1);
    assert_eq!(data.functions[0].name, "f");
}

#[test]
fn macro_inside_function_inside_impl_is_found() {
    let code = "impl A { fn f(&self) { println!(\"x\"); let v = std::vec![1]; } }";
    let data = index_text(code);
    assert_eq!(data.impls.len(), 1);
    assert_eq!(data.functions.len(), 1);
    assert_eq!(data.macros.len(), 2);
    assert_eq!(data.macros[0].name, "println");
    assert_eq!(data.macros[1].name, "std::vec");
    assert_eq!(
        &code[data.macros[0].start_position..data.macros[0].end_position],
        "println!(\"x\")"
    );
}

#[test]
fn use_of_a_path_lists_its_identifiers() {
    let data = index_text("use a::b::c;\npub use d;\nuse crate::e;");
    assert_eq!(data.use_dependencies.len(), 3);
    assert_eq!(data.use_dependencies[0].segments, texts(&["a", "b", "c"]));
    assert!(!data.use_dependencies[0].is_pub);
    assert_eq!(data.use_dependencies[1].segments, texts(&["d"]));
    assert!(data.use_dependencies[1].is_pub);
    assert_eq!(data.use_dependencies[2].segments, texts(&["e"]));
}

#[test]
fn use_with_alias_sets_the_alias_and_adds_no_segment() {
    let data = index_text("use a::b as c;");
    assert_eq!(data.use_dependencies.len(), 1);
    assert!(data.use_dependencies[0].segments.is_empty());
    assert_eq!(data.use_dependencies[0].alias, Some("c".to_string()));
}

#[test]
fn use_of_a_wildcard_is_one_star() {
    let data = index_text("use a::b::*;");
    assert_eq!(data.use_dependencies[0].segments, texts(&["*"]));
    assert_eq!(data.use_dependencies[0].alias, None);
}

#[test]
fn use_of_a_nested_group_is_flattened() {
    let data = index_text("use a::{b::{c, d}, e};");
    assert_eq!(data.use_dependencies[0].segments, texts(&["a", "b", "c", "d", "e"]));
}

#[test]
fn records_come_in_document_order() {
    let data = index_text("fn a() {}\nmod m { fn b() {} }\nfn c() { fn d() {} }");
    let names: Vec<&str> = data.functions.iter().map(|f| f.name.as_str()).collect();
    assert_eq!(names, vec!["a", "b", "c", "d"]);
}

#[test]
fn record_ranges_reproduce_the_declarations() {
    let code = "use a::b;\n\npub struct S { x: u8 }\n\nenum E { A }\n\nfn f() { g!(); }\n\nimpl S {}\n\ntype T = S;\n\nmod m {}\n";
    let data = index_text(code);
    assert_eq!(data.use_dependencies[0].print_block(&data), Some("use a::b;".to_string()));
    assert_eq!(data.structs[0].print_block(&data), Some("pub struct S { x: u8 }".to_string()));
    assert_eq!(data.enums[0].print_block(&data), Some("enum E { A }".to_string()));
    assert_eq!(data.functions[0].print_block(&data), Some("fn f() { g!(); }".to_string()));
    assert_eq!(data.macros[0].print_block(&data), Some("g!()".to_string()));
    assert_eq!(data.impls[0].print_block(&data), Some("impl S {}".to_string()));
    assert_eq!(data.type_aliases[0].print_block(&data), Some("type T = S;".to_string()));
    assert_eq!(data.mods[0].print_block(&data), Some("mod m {}".to_string()));
}

#[test]
fn ranges_are_byte_offsets_in_text_with_wide_characters() {
    let code = "// caf\u{e9} \u{1f980}\nstruct S;";
    let data = index_text(code);
    assert_eq!(data.structs[0].start_position, 14);
    assert_eq!(data.structs[0].end_position, 23);
    assert_eq!(data.structs[0].print_block(&data), Some("struct S;".to_string()));
}

#[test]
fn text_with_errors_is_still_indexed() {
    let data = index_text("struct A;\nfn (((\nstruct B;");
    let names: Vec<&str> = data.structs.iter().map(|s| s.name.as_str()).collect();
    assert!(names.contains(&"A"));
}

#[test]
fn empty_text_gives_no_record_and_keeps_the_text() {
    let data = index_text("");
    assert!(data.structs.is_empty());
    assert!(data.functions.is_empty());
    assert!(data.macros.is_empty());
    assert_eq!(data.file_contents.get(PATH), Some(&String::new()));
}

#[test]
fn parse_source_copies_the_tree_of_the_parser() {
    let code = "pub struct P { x: u8 }";
    let root = parse_source(code).expect("the text parses");
    assert_eq!(root.kind, "source_file");
    assert_eq!(root.field_name, None);
    assert_eq!(root.start_byte, 0);
    assert_eq!(root.end_byte, code.len());
    assert_eq!(root.children.len(), 1);
    let item = &root.children[0];
    assert_eq!(item.kind, "struct_item");
    assert_eq!((item.start_byte, item.end_byte), (0, 22));
    let kinds: Vec<&str> = item.children.iter().map(|c| c.kind.as_str()).collect();
    assert_eq!(kinds, vec!["visibility_modifier", "struct", "type_identifier", "field_declaration_list"]);
    let fields: Vec<Option<&str>> = item.children.iter().map(|c| c.field_name.as_deref()).collect();
    assert_eq!(fields, vec![None, None, Some("name"), Some("body")]);
    let name = &item.children[2];
    assert_eq!((name.start_byte, name.end_byte), (11, 12));
    assert!(name.children.is_empty());
    let body = &item.children[3];
    assert_eq!((body.start_byte, body.end_byte), (13, 22));
    let declaration = &body.children[1];
    assert_eq!(declaration.kind, "field_declaration");
    assert_eq!(declaration.children[0].field_name.as_deref(), Some("name"));
    assert_eq!(declaration.children[2].field_name.as_deref(), Some("type"));
    assert_eq!(declaration.children[2].kind, "primitive_type");
}
