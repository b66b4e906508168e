//! Indexing: from the text of source files to the records in the aggregate
//! store.

use vstd::prelude::*;
use crate::parse::{parse_source, rust_tree, ParseError};
use crate::store::{ExtractedData, ExtractedDataModel, SourceText};
use crate::syntax::{SyntaxNode, SyntaxTree};
use crate::traverse::{traverse_tree, walk, InfoExtractor};

verus! {

/// The store after the file `file_path`, with the text `code` and the
/// syntax tree `root`, was indexed: the text is kept under the path, and the
/// records of the tree's declarations follow those that the store held.
pub open spec fn indexed(
    extractors: Seq<&dyn InfoExtractor>,
    root: SyntaxTree,
    code: Seq<char>,
    file_path: Seq<char>,
    data: ExtractedDataModel,
) -> ExtractedDataModel {
    walk(extractors, root, Seq::empty(), code, file_path, data.with_text(file_path, code))
}

/// The store after a file was offered for indexing with the tree `root`: the
/// file is indexed where the tree is legible in the text, and the store is
/// left as it is where it is not.
pub open spec fn indexed_legible(
    extractors: Seq<&dyn InfoExtractor>,
    root: SyntaxTree,
    code: Seq<char>,
    file_path: Seq<char>,
    data: ExtractedDataModel,
) -> ExtractedDataModel {
    if root.legible(code) {
        indexed(extractors, root, code, file_path, data)
    } else {
        data
    }
}

/// The store after the file `file_path` with the text `code` was parsed and
/// offered for indexing; a text of which the parser makes no tree leaves the
/// store as it is.
pub open spec fn indexed_source(
    extractors: Seq<&dyn InfoExtractor>,
    code: Seq<char>,
    file_path: Seq<char>,
    data: ExtractedDataModel,
) -> ExtractedDataModel {
    match rust_tree(code) {
        Some(root) => indexed_legible(extractors, root, code, file_path, data),
        None => data,
    }
}

/// The store after the files `files` were parsed and offered for indexing,
/// one after the other.
pub open spec fn indexed_files(
    extractors: Seq<&dyn InfoExtractor>,
    files: Seq<SourceText>,
    data: ExtractedDataModel,
) -> ExtractedDataModel
    decreases files.len(),
{
    if files.len() == 0 {
        data
    } else {
        indexed_source(
            extractors,
            files.last().text@,
            files.last().path@,
            indexed_files(extractors, files.drop_last(), data),
        )
    }
}

/// A file with what parsing it came to.
pub struct ParsedFile<'a> {
    /// The file.
    pub file: &'a SourceText,
    /// The file's syntax tree, or why there is none.
    pub parsed: Result<SyntaxNode, ParseError>,
}

/// The store after one parsed file was offered for indexing: a file
/// without a tree leaves the store as it is.
pub open spec fn indexed_parsed(
    extractors: Seq<&dyn InfoExtractor>,
    entry: ParsedFile,
    data: ExtractedDataModel,
) -> ExtractedDataModel {
    match entry.parsed {
        Ok(root) => indexed_legible(
            extractors,
            root.deep_view(),
            entry.file.text@,
            entry.file.path@,
            data,
        ),
        Err(_) => data,
    }
}

/// The store after the parsed files `run` were offered for indexing, one
/// after the other.
pub open spec fn indexed_run(
    extractors: Seq<&dyn InfoExtractor>,
    run: Seq<ParsedFile>,
    data: ExtractedDataModel,
) -> ExtractedDataModel
    decreases run.len(),
{
    if run.len() == 0 {
        data
    } else {
        indexed_parsed(extractors, run.last(), indexed_run(extractors, run.drop_last(), data))
    }
}

/// Whether the parser refused the grammar for one of the files of `run`.
pub open spec fn grammar_refused(run: Seq<ParsedFile>) -> bool {
    exists|i: int| 0 <= i < run.len() && (#[trigger] run[i]).parsed == Err::<
        SyntaxNode,
        ParseError,
    >(ParseError::Grammar)
}

/// Whether `entry` holds `file` with what the parser makes of its text.
pub open spec fn is_parse_of(entry: ParsedFile, file: SourceText) -> bool {
    &&& *entry.file == file
    &&& match entry.parsed {
        Ok(root) => rust_tree(file.text@) == Some(root.deep_view()),
        Err(ParseError::NoTree) => rust_tree(file.text@) is None,
        Err(ParseError::Grammar) => true,
        Err(ParseError::Illegible) => false,
    }
}

/// A run that holds each file with what the parser makes of it, the grammar
/// accepted throughout, indexes as the files do.
pub proof fn lemma_run_indexes_as_files(
    extractors: Seq<&dyn InfoExtractor>,
    run: Seq<ParsedFile>,
    files: Seq<SourceText>,
    data: ExtractedDataModel,
)
    requires
        run.len() == files.len(),
        forall|i: int| 0 <= i < run.len() ==> is_parse_of(#[trigger] run[i], files[i]),
        !grammar_refused(run),
    ensures
        indexed_run(extractors, run, data) == indexed_files(extractors, files, data),
    decreases run.len(),
{
    if run.len() > 0 {
        let front = run.drop_last();
        assert forall|i: int| 0 <= i < front.len() implies is_parse_of(
            #[trigger] front[i],
            files.drop_last()[i],
        ) by {
            assert(is_parse_of(run[i], files[i]));
        }
        assert(!grammar_refused(front)) by {
            if grammar_refused(front) {
                let i = choose|i: int|
                    0 <= i < front.len() && (#[trigger] front[i]).parsed == Err::<
                        SyntaxNode,
                        ParseError,
                    >(ParseError::Grammar);
                assert(run[i] == front[i]);
            }
        }
        lemma_run_indexes_as_files(extractors, front, files.drop_last(), data);
        let last = run.len() - 1;
        assert(is_parse_of(run[last], files[last]));
        assert(run[last].parsed != Err::<SyntaxNode, ParseError>(ParseError::Grammar));
    }
}

/// Indexes one file of which the syntax tree is at hand: keeps its text
/// under its path and appends the records of its declarations, in document
/// order.
pub fn index_tree(
    root: &SyntaxNode,
    code: &str,
    extractors: &[&dyn InfoExtractor],
    file_path: String,
    extracted_data_: &mut ExtractedData,
)
    ensures
        final(extracted_data_).deep_view() == indexed(
            extractors@,
            root.deep_view(),
            code@,
            file_path@,
            old(extracted_data_).deep_view(),
        ),
{
    extracted_data_.file_contents.insert(file_path.clone(), code.to_owned());
    traverse_tree(root, code, extractors, file_path, extracted_data_);
}

/// Indexes one file given what parsing it came to.
///
/// A file with a tree that is legible in the text is indexed. A tree that
/// is not legible is refused as `Illegible`, and a failure of the parser is
/// handed back; both leave the store as it is.
pub fn index_parsed(
    parsed: &Result<SyntaxNode, ParseError>,
    code: &str,
    extractors: &[&dyn InfoExtractor],
    file_path: String,
    extracted_data_: &mut ExtractedData,
) -> (outcome: Result<(), ParseError>)
    ensures
        match *parsed {
            Ok(root) => final(extracted_data_).deep_view() == indexed_legible(
                extractors@,
                root.deep_view(),
                code@,
                file_path@,
                old(extracted_data_).deep_view(),
            ) && outcome == if root.deep_view().legible(code@) {
                Ok::<(), ParseError>(())
            } else {
                Err::<(), ParseError>(ParseError::Illegible)
            },
            Err(error) => outcome == Err::<(), ParseError>(error) && final(extracted_data_).deep_view()
                == old(extracted_data_).deep_view(),
        },
{
    match parsed {
        Ok(root) => {
            if root.is_legible(code) {
                index_tree(root, code, extractors, file_path, extracted_data_);
                Ok(())
            } else {
                Err(ParseError::Illegible)
            }
        },
        Err(error) => Err(*error),
    }
}

/// Parses and indexes one file.
///
/// The store is left as it is where the parser makes no tree of the text,
/// makes a tree that is not legible in the text, or does not accept the
/// grammar; the error says which.
pub fn index_source(
    code: &str,
    extractors: &[&dyn InfoExtractor],
    file_path: String,
    extracted_data_: &mut ExtractedData,
) -> (outcome: Result<(), ParseError>)
    ensures
        outcome is Ok ==> rust_tree(code@) is Some && rust_tree(code@)->0.legible(code@),
        outcome matches Err(ParseError::NoTree) ==> rust_tree(code@) is None,
        outcome matches Err(ParseError::Illegible) ==> rust_tree(code@) is Some && !rust_tree(
            code@,
        )->0.legible(code@),
        !(outcome matches Err(ParseError::Grammar)) ==> final(extracted_data_).deep_view()
            == indexed_source(
            extractors@,
            code@,
            file_path@,
            old(extracted_data_).deep_view(),
        ),
        outcome is Err ==> final(extracted_data_).deep_view() == old(extracted_data_).deep_view(),
{
    let parsed = parse_source(code);
    index_parsed(&parsed, code, extractors, file_path, extracted_data_)
}

/// Indexes the parsed files `run`, in order, into a new store.
///
/// A file without a tree, or with a tree that is not legible in its text,
/// is passed over. The run fails if and only if the parser refused the
/// grammar for one of the files.
pub fn index_run(run: &Vec<ParsedFile>, extractors: &[&dyn InfoExtractor]) -> (outcome: Result<
    ExtractedData,
    ParseError,
>)
    ensures
        match outcome {
            Ok(data) => !grammar_refused(run@) && data.deep_view() == indexed_run(
                extractors@,
                run@,
                ExtractedDataModel::empty(),
            ),
            Err(error) => grammar_refused(run@) && error == ParseError::Grammar,
        },
{
    let mut data = ExtractedData::new();
    let mut i: usize = 0;
    while i < run.len()
        invariant
            i <= run@.len(),
            forall|j: int|
                0 <= j < i ==> (#[trigger] run@[j]).parsed != Err::<SyntaxNode, ParseError>(
                    ParseError::Grammar,
                ),
            data.deep_view() == indexed_run(
                extractors@,
                run@.take(i as int),
                ExtractedDataModel::empty(),
            ),
        decreases run@.len() - i,
    {
        assert(run@.take(i + 1).drop_last() == run@.take(i as int));
        let entry = &run[i];
        match index_parsed(
            &entry.parsed,
            entry.file.text.as_str(),
            extractors,
            entry.file.path.clone(),
            &mut data,
        ) {
            Err(ParseError::Grammar) => {
                return Err(ParseError::Grammar);
            },
            _ => {},
        }
        i = i + 1;
    }
    assert(run@.take(i as int) == run@);
    Ok(data)
}

/// Parses the files `files` and indexes them, in order, into a new store.
///
/// A file of which the parser makes no tree, or a tree that is not legible
/// in the text, is passed over. The only failure is a parser that does not
/// accept the grammar, which no run without a file can meet.
pub fn index_files(files: &Vec<SourceText>, extractors: &[&dyn InfoExtractor]) -> (outcome: Result<
    ExtractedData,
    ParseError,
>)
    ensures
        files@.len() == 0 ==> outcome is Ok,
        match outcome {
            Ok(data) => data.deep_view() == indexed_files(
                extractors@,
                files@,
                ExtractedDataModel::empty(),
            ),
            Err(error) => error == ParseError::Grammar,
        },
{
    let mut run: Vec<ParsedFile> = Vec::new();
    let mut i: usize = 0;
    while i < files.len()
        invariant
            i <= files@.len(),
            run@.len() == i,
            forall|j: int| 0 <= j < i ==> is_parse_of(#[trigger] run@[j], files@[j]),
        decreases files@.len() - i,
    {
        let parsed = parse_source(files[i].text.as_str());
        run.push(ParsedFile { file: &files[i], parsed });
        i = i + 1;
    }
    let outcome = index_run(&run, extractors);
    proof {
        if outcome is Ok {
            lemma_run_indexes_as_files(extractors@, run@, files@, ExtractedDataModel::empty());
        }
    }
    outcome
}

} // verus!
