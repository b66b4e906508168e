use parser::directory::{contains_name, DirectoryWalk, EntryAction, WalkEntry};
use parser::extractors::{
    EnumInfoExtractor, FunctionInfoExtractor, ImplInfoExtractor, MacroInfoExtractor,
    ModInfoExtractor, StructInfoExtractor, TypeAliasInfoExtractor, UseDependencyInfoExtractor,
};
use parser::index::{index_files, index_run, index_source, index_tree, ParsedFile};
use parser::parse::ParseError;
use parser::print_blocks::PrintBlock;
use parser::records::{
    EnumInfo, EnumVariantInfo, EnumVariantType, FieldInfo, FunctionInfo, ImplInfo, MacroInfo,
    ModInfo, ParameterInfo, StructInfo, TypeAliasInfo, UseDependencyInfo,
};
use parser::store::{ExtractedData, SourceText, SourceTextStore};
use parser::syntax::SyntaxNode;
use parser::traverse::InfoExtractor;

fn entry(name: &str, depth: usize, is_dir: bool) -> WalkEntry {
    let extension = if is_dir {
        None
    } else {
        name.rsplit_once('.').map(|(_, e)| e.to_string())
    };
    WalkEntry { file_name: name.to_string(), depth, is_dir, is_file: !is_dir, extension }
}

fn actions(ignored: Option<Vec<String>>, entries: &[WalkEntry]) -> Vec<EntryAction> {
    let mut walk = DirectoryWalk::new(ignored);
    entries.iter().map(|e| walk.step(e)).collect()
}

fn file(path: &str, text: &str) -> SourceText {
    SourceText { path: path.to_string(), text: text.to_string() }
}

fn run(files: &Vec<SourceText>) -> ExtractedData {
    let structs = StructInfoExtractor {};
    let functions = FunctionInfoExtractor {};
    let aliases = TypeAliasInfoExtractor {};
    let impls = ImplInfoExtractor {};
    let uses = UseDependencyInfoExtractor {};
    let mods = ModInfoExtractor {};
    let enums = EnumInfoExtractor {};
    let macros = MacroInfoExtractor {};
    let extractors: Vec<&dyn InfoExtractor> =
        vec![&structs, &functions, &aliases, &impls, &uses, &mods, &enums, &macros];
    index_files(files, &extractors).expect("the grammar loads")
}

#[test]
fn source_text_store_keeps_the_text_stored_last() {
    let mut store = SourceTextStore::new();
    assert_eq!(store.get("a.rs"), None);
    assert!(!store.contains_key("a.rs"));
    store.insert("a.rs".to_string(), "one".to_string());
    store.insert("b.rs".to_string(), "two".to_string());
    assert_eq!(store.get("a.rs"), Some(&"one".to_string()));
    assert_eq!(store.get("b.rs"), Some(&"two".to_string()));
    assert_eq!(store.get("c.rs"), None);
    store.insert("a.rs".to_string(), "three".to_string());
    assert_eq!(store.get("a.rs"), Some(&"three".to_string()));
    assert_eq!(store.get("b.rs"), Some(&"two".to_string()));
    assert!(store.contains_key("a.rs"));
    assert!(!store.contains_key("A.rs"));
    assert!(SourceTextStore::default().entries.is_empty());
}

#[test]
fn new_store_is_empty() {
    let data = ExtractedData::new();
    assert!(data.structs.is_empty());
    assert!(data.functions.is_empty());
    assert!(data.type_aliases.is_empty());
    assert!(data.impls.is_empty());
    assert!(data.use_dependencies.is_empty());
    assert!(data.mods.is_empty());
    assert!(data.enums.is_empty());
    assert!(data.macros.is_empty());
    assert!(data.file_contents.entries.is_empty());
    assert!(ExtractedData::default().structs.is_empty());
}

#[test]
fn default_records_are_empty() {
    let s = StructInfo::default();
    assert_eq!((s.name.as_str(), s.is_pub, s.start_position, s.end_position), ("", false, 0, 0));
    assert!(s.doc_comment.is_none() && s.attributes.is_empty() && s.fields.is_empty());
    assert_eq!(s.file_path, "");
    let f = FunctionInfo::default();
    assert!(f.name.is_empty() && f.parameters.is_empty() && f.return_type.is_none());
    assert!(!f.is_pub && !f.is_method);
    let e = EnumInfo::default();
    assert!(e.name.is_empty() && e.variants.is_empty() && !e.is_pub);
    assert!(matches!(EnumVariantType::default(), EnumVariantType::Unspecified));
    assert!(matches!(EnumVariantInfo::default().variant_type, EnumVariantType::Unspecified));
    assert!(ModInfo::default().name.is_empty());
    assert!(MacroInfo::default().name.is_empty());
    assert!(ImplInfo::default().name.is_empty());
    assert!(FieldInfo::default().type_text.is_empty());
    assert!(ParameterInfo::default().type_text.is_empty());
    assert!(TypeAliasInfo::default().aliased_type.is_empty());
    let u = UseDependencyInfo::default();
    assert!(u.segments.is_empty() && u.alias.is_none() && !u.is_pub);
}

#[test]
fn source_block_cuts_the_range_out_of_the_stored_text() {
    let mut data = ExtractedData::new();
    data.file_contents.insert("a.rs".to_string(), "fn f() {}".to_string());
    assert_eq!(data.source_block("a.rs", 3, 4), Some("f".to_string()));
    assert_eq!(data.source_block("a.rs", 0, 9), Some("fn f() {}".to_string()));
    assert_eq!(data.source_block("a.rs", 0, 10), None);
    assert_eq!(data.source_block("b.rs", 3, 4), None);
    let record = MacroInfo {
        name: "m".to_string(),
        start_position: 0,
        end_position: 2,
        file_path: "a.rs".to_string(),
    };
    assert_eq!(record.print_block(&data), Some("fn".to_string()));
    let lost = MacroInfo { file_path: "z.rs".to_string(), ..record };
    assert_eq!(lost.print_block(&data), None);
}

#[test]
fn index_tree_keeps_the_text_and_appends_the_records() {
    let code = "mod m;";
    let root = SyntaxNode::new(
        "source_file",
        0,
        6,
        vec![SyntaxNode::new("mod_item", 0, 6, vec![SyntaxNode::new("identifier", 4, 5, Vec::new())])],
    );
    let mods = ModInfoExtractor {};
    let extractors: Vec<&dyn InfoExtractor> = vec![&mods];
    let mut data = ExtractedData::new();
    index_tree(&root, code, &extractors, "/x/a.rs".to_string(), &mut data);
    assert_eq!(data.file_contents.get("/x/a.rs"), Some(&code.to_string()));
    assert_eq!(data.mods.len(), 1);
    assert_eq!(data.mods[0].name, "m");
    assert_eq!(data.mods[0].file_path, "/x/a.rs");
    assert_eq!(data.mods[0].print_block(&data), Some("mod m;".to_string()));
}

#[test]
fn index_source_appends_to_what_the_store_holds() {
    let functions = FunctionInfoExtractor {};
    let extractors: Vec<&dyn InfoExtractor> = vec![&functions];
    let mut data = ExtractedData::new();
    assert_eq!(index_source("fn a() {}", &extractors, "/a.rs".to_string(), &mut data), Ok(()));
    assert_eq!(index_source("fn b() {}", &extractors, "/b.rs".to_string(), &mut data), Ok(()));
    let found: Vec<(&str, &str)> =
        data.functions.iter().map(|f| (f.name.as_str(), f.file_path.as_str())).collect();
    assert_eq!(found, vec![("a", "/a.rs"), ("b", "/b.rs")]);
    assert_eq!(data.file_contents.get("/a.rs"), Some(&"fn a() {}".to_string()));
    assert_eq!(data.file_contents.get("/b.rs"), Some(&"fn b() {}".to_string()));
    assert!(data.structs.is_empty());
}

#[test]
fn files_are_indexed_in_the_order_given() {
    let files = vec![
        file("/p/b.rs", "struct B1; fn fb() {} struct B2;"),
        file("/p/a.rs", "struct A; fn fa() {}"),
    ];
    let data = run(&files);
    let structs: Vec<(&str, &str)> =
        data.structs.iter().map(|s| (s.name.as_str(), s.file_path.as_str())).collect();
    assert_eq!(structs, vec![("B1", "/p/b.rs"), ("B2", "/p/b.rs"), ("A", "/p/a.rs")]);
    let functions: Vec<&str> = data.functions.iter().map(|f| f.name.as_str()).collect();
    assert_eq!(functions, vec!["fb", "fa"]);
    assert!(run(&Vec::new()).structs.is_empty());
}

#[test]
fn indexing_twice_gives_the_same_store() {
    let files = vec![
        file("/p/a.rs", "/// Doc.\n#[derive(Debug)]\npub struct A { pub x: u8 }\nimpl A { fn f(&self) { m!(); } }"),
        file("/p/b.rs", "use a::{b, c};\nenum E { X(u8), Y { z: u8 }, W }\ntype T = E;\nmod n;"),
    ];
    let first = run(&files);
    let second = run(&files.clone());
    assert_eq!(format!("{:?}", first), format!("{:?}", second));
    assert_eq!(first.structs.len(), 1);
    assert_eq!(first.enums.len(), 1);
}

#[test]
fn every_record_names_a_stored_file_and_can_be_cut_out_of_it() {
    let files = vec![
        file("/p/a.rs", "pub struct A { pub x: u8 }\nimpl A { fn f(&self) { m!(); } }\n// caf\u{e9}\n"),
        file("/p/b.rs", "use a::{b, c};\nenum E { X(u8), Y { z: u8 }, W }\ntype T = E;\nmod n;"),
    ];
    let data = run(&files);
    let mut blocks: Vec<(String, Option<String>)> = Vec::new();
    for r in &data.structs {
        blocks.push((r.file_path.clone(), r.print_block(&data)));
    }
    for r in &data.functions {
        blocks.push((r.file_path.clone(), r.print_block(&data)));
    }
    for r in &data.type_aliases {
        blocks.push((r.file_path.clone(), r.print_block(&data)));
    }
    for r in &data.impls {
        blocks.push((r.file_path.clone(), r.print_block(&data)));
    }
    for r in &data.use_dependencies {
        blocks.push((r.file_path.clone(), r.print_block(&data)));
    }
    for r in &data.mods {
        blocks.push((r.file_path.clone(), r.print_block(&data)));
    }
    for r in &data.enums {
        blocks.push((r.file_path.clone(), r.print_block(&data)));
    }
    for r in &data.macros {
        blocks.push((r.file_path.clone(), r.print_block(&data)));
    }
    assert_eq!(blocks.len(), 8);
    for (path, block) in &blocks {
        assert!(data.file_contents.contains_key(path));
        assert!(block.is_some());
    }
}

#[test]
fn contains_name_looks_for_the_whole_name() {
    let names = vec!["examples".to_string(), "assets".to_string()];
    assert!(contains_name(&names, "examples"));
    assert!(contains_name(&names, "assets"));
    assert!(!contains_name(&names, "asset"));
    assert!(!contains_name(&names, "src"));
    assert!(!contains_name(&Vec::new(), "src"));
}

#[test]
fn files_below_an_ignored_directory_are_skipped() {
    let listing = vec![
        entry("src", 0, true),
        entry("main.rs", 1, false),
        entry("examples", 1, true),
        entry("demo.rs", 2, false),
        entry("deep", 2, true),
        entry("more.rs", 3, false),
        entry("lib.rs", 1, false),
        entry("util", 1, true),
        entry("a.rs", 2, false),
    ];
    let found = actions(Some(vec!["examples".to_string(), "assets".to_string()]), &listing);
    assert_eq!(
        found,
        vec![
            EntryAction::Skip,
            EntryAction::Index,
            EntryAction::Ignore,
            EntryAction::Skip,
            EntryAction::Skip,
            EntryAction::Skip,
            EntryAction::Index,
            EntryAction::Skip,
            EntryAction::Index,
        ]
    );
}

#[test]
fn root_is_never_ignored() {
    let listing = vec![entry("examples", 0, true), entry("a.rs", 1, false)];
    let found = actions(Some(vec!["examples".to_string()]), &listing);
    assert_eq!(found, vec![EntryAction::Skip, EntryAction::Index]);
}

#[test]
fn only_files_with_the_source_extension_are_indexed() {
    let listing = vec![
        entry("a.rs", 1, false),
        entry("b.txt", 1, false),
        entry("c", 1, false),
        entry("d.rs", 1, true),
        WalkEntry {
            file_name: "e.rs".to_string(),
            depth: 1,
            is_dir: false,
            is_file: false,
            extension: Some("rs".to_string()),
        },
        entry("f.RS", 1, false),
    ];
    let found = actions(None, &listing);
    assert_eq!(
        found,
        vec![
            EntryAction::Index,
            EntryAction::Skip,
            EntryAction::Skip,
            EntryAction::Skip,
            EntryAction::Skip,
            EntryAction::Skip,
        ]
    );
}

#[test]
fn a_file_named_like_an_ignored_directory_is_indexed() {
    let listing = vec![WalkEntry {
        file_name: "examples".to_string(),
        depth: 1,
        is_dir: false,
        is_file: true,
        extension: Some("rs".to_string()),
    }];
    assert_eq!(actions(Some(vec!["examples".to_string()]), &listing), vec![EntryAction::Index]);
}

#[test]
fn walk_leaves_an_ignored_directory_at_its_next_sibling() {
    let mut walk = DirectoryWalk::new(Some(vec!["target".to_string()]));
    assert_eq!(walk.pruned, None);
    assert_eq!(walk.step(&entry("target", 2, true)), EntryAction::Ignore);
    assert_eq!(walk.pruned, Some(2));
    assert_eq!(walk.step(&entry("x.rs", 3, false)), EntryAction::Skip);
    assert_eq!(walk.pruned, Some(2));
    assert_eq!(walk.step(&entry("y.rs", 2, false)), EntryAction::Index);
    assert_eq!(walk.pruned, None);
    assert_eq!(walk.step(&entry("target", 1, true)), EntryAction::Ignore);
    assert_eq!(walk.step(&entry("target", 1, true)), EntryAction::Ignore);
    assert_eq!(walk.pruned, Some(1));
    assert_eq!(walk.step(&entry("target", 2, true)), EntryAction::Skip);
    assert_eq!(walk.pruned, Some(1));
    assert_eq!(walk.ignored, vec!["target".to_string()]);
    assert!(DirectoryWalk::new(None).ignored.is_empty());
}

#[test]
fn merged_stores_hold_the_records_of_both_in_order() {
    let first = vec![file("/p/a.rs", "struct A; fn fa() {}"), file("/p/b.rs", "struct B;")];
    let second = vec![file("/p/c.rs", "struct C; mod m;"), file("/p/a.rs", "struct A2;")];
    let mut merged = run(&first);
    merged.merge(run(&second));
    let names: Vec<&str> = merged.structs.iter().map(|s| s.name.as_str()).collect();
    assert_eq!(names, vec!["A", "B", "C", "A2"]);
    assert_eq!(merged.functions.len(), 1);
    assert_eq!(merged.mods.len(), 1);
    assert_eq!(merged.file_contents.get("/p/a.rs"), Some(&"struct A2;".to_string()));
    assert_eq!(merged.file_contents.get("/p/b.rs"), Some(&"struct B;".to_string()));
    assert_eq!(merged.file_contents.get("/p/c.rs"), Some(&"struct C; mod m;".to_string()));
    let mut all = first.clone();
    all.extend(second.clone());
    assert_eq!(format!("{:?}", merged), format!("{:?}", run(&all)));
}

#[test]
fn merging_with_an_empty_store_changes_nothing() {
    let files = vec![file("/p/a.rs", "struct A; fn fa() {}")];
    let alone = run(&files);
    let mut left = ExtractedData::new();
    left.merge(run(&files));
    assert_eq!(format!("{:?}", left), format!("{:?}", alone));
    let mut right = run(&files);
    right.merge(ExtractedData::new());
    assert_eq!(format!("{:?}", right), format!("{:?}", alone));
}

#[test]
fn appended_texts_take_the_place_of_older_ones() {
    let mut store = SourceTextStore::new();
    store.insert("a".to_string(), "1".to_string());
    store.insert("b".to_string(), "2".to_string());
    let mut other = SourceTextStore::new();
    other.insert("b".to_string(), "3".to_string());
    other.insert("c".to_string(), "4".to_string());
    store.append(other);
    assert_eq!(store.get("a"), Some(&"1".to_string()));
    assert_eq!(store.get("b"), Some(&"3".to_string()));
    assert_eq!(store.get("c"), Some(&"4".to_string()));
    assert_eq!(store.get("d"), None);
}

#[test]
fn ignored_directories_side_by_side_are_each_announced() {
    let listing = vec![
        entry("src", 0, true),
        entry("assets", 1, true),
        entry("a.rs", 2, false),
        entry("examples", 1, true),
        entry("assets", 2, true),
        entry("b.rs", 1, false),
    ];
    let found = actions(Some(vec!["examples".to_string(), "assets".to_string()]), &listing);
    assert_eq!(
        found,
        vec![
            EntryAction::Skip,
            EntryAction::Ignore,
            EntryAction::Skip,
            EntryAction::Ignore,
            EntryAction::Skip,
            EntryAction::Index,
        ]
    );
}

#[test]
fn run_without_files_succeeds_with_an_empty_store() {
    let none: Vec<&dyn InfoExtractor> = Vec::new();
    let data = index_files(&Vec::new(), &none).expect("no file reaches the parser");
    assert!(data.structs.is_empty());
    assert!(data.file_contents.entries.is_empty());
    let data = index_run(&Vec::new(), &none).expect("no file was refused");
    assert!(data.macros.is_empty());
}

#[test]
fn run_fails_only_where_the_grammar_was_refused() {
    let mods = ModInfoExtractor {};
    let extractors: Vec<&dyn InfoExtractor> = vec![&mods];
    let a = file("/a.rs", "mod a;");
    let b = file("/b.rs", "mod b;");
    let c = file("/c.rs", "mod c;");
    let tree = |name_at: usize| {
        SyntaxNode::new(
            "source_file",
            0,
            6,
            vec![SyntaxNode::new("mod_item", 0, 6, vec![SyntaxNode::new("identifier", name_at, 5, Vec::new())])],
        )
    };
    let wide = SyntaxNode::new("source_file", 0, 7, vec![SyntaxNode::new("mod_item", 0, 7, Vec::new())]);
    let run = vec![
        ParsedFile { file: &a, parsed: Ok(tree(4)) },
        ParsedFile { file: &b, parsed: Err(ParseError::NoTree) },
        ParsedFile { file: &c, parsed: Ok(wide) },
        ParsedFile { file: &b, parsed: Ok(tree(4)) },
    ];
    let data = index_run(&run, &extractors).expect("no file was refused");
    let found: Vec<(&str, &str)> =
        data.mods.iter().map(|m| (m.name.as_str(), m.file_path.as_str())).collect();
    assert_eq!(found, vec![("a", "/a.rs"), ("b", "/b.rs")]);
    assert!(data.file_contents.contains_key("/a.rs"));
    assert!(data.file_contents.contains_key("/b.rs"));
    assert!(!data.file_contents.contains_key("/c.rs"));
    let refused = vec![
        ParsedFile { file: &a, parsed: Ok(tree(4)) },
        ParsedFile { file: &b, parsed: Err(ParseError::Grammar) },
    ];
    assert!(matches!(index_run(&refused, &extractors), Err(ParseError::Grammar)));
}
