//! The aggregate store: every record found so far, category by category, and
//! the text of every file that records come from.

use vstd::prelude::*;
use crate::records::{
    EnumInfo, EnumInfoModel, FunctionInfo, FunctionInfoModel, ImplInfo, ImplInfoModel, MacroInfo,
    MacroInfoModel, ModInfo, ModInfoModel, StructInfo, StructInfoModel, TypeAliasInfo,
    TypeAliasInfoModel, UseDependencyInfo, UseDependencyInfoModel,
};
use crate::text::{read_text, slice_text, str_eq};

verus! {

/// The text of one source file, under the path that identifies the file.
#[derive(Clone, Debug)]
pub struct SourceText {
    /// The file's identity: its absolute path.
    pub path: String,
    /// The file's full text.
    pub text: String,
}

/// The texts of the files that were indexed, by path.
///
/// The entries are kept in the order in which they were stored. Where a path
/// was stored more than once, the entry stored last is the one that counts.
#[derive(Clone, Debug)]
pub struct SourceTextStore {
    /// The stored texts, oldest first.
    pub entries: Vec<SourceText>,
}

/// The map that a sequence of stored texts stands for: from each path to the
/// text that was stored last under it.
pub open spec fn texts_of(entries: Seq<SourceText>) -> Map<Seq<char>, Seq<char>>
    decreases entries.len(),
{
    if entries.len() == 0 {
        Map::empty()
    } else {
        texts_of(entries.drop_last()).insert(entries.last().path@, entries.last().text@)
    }
}

/// Texts stored after other texts take the place of those under the same
/// paths.
pub proof fn lemma_texts_of_concat(first: Seq<SourceText>, second: Seq<SourceText>)
    ensures
        texts_of(first + second) == texts_of(first).union_prefer_right(texts_of(second)),
    decreases second.len(),
{
    if second.len() == 0 {
        assert(first + second == first);
        assert(texts_of(first) =~= texts_of(first).union_prefer_right(texts_of(second)));
    } else {
        assert((first + second).drop_last() == first + second.drop_last());
        assert((first + second).last() == second.last());
        lemma_texts_of_concat(first, second.drop_last());
        assert(texts_of(first + second) =~= texts_of(first).union_prefer_right(texts_of(second)));
    }
}

impl View for SourceTextStore {
    type V = Map<Seq<char>, Seq<char>>;

    open spec fn view(&self) -> Map<Seq<char>, Seq<char>> {
        texts_of(self.entries@)
    }
}

impl DeepView for SourceTextStore {
    type V = Map<Seq<char>, Seq<char>>;

    open spec fn deep_view(&self) -> Map<Seq<char>, Seq<char>> {
        texts_of(self.entries@)
    }
}

impl SourceTextStore {
    /// A store that holds no text.
    pub fn new() -> (store: SourceTextStore)
        ensures
            store@ == Map::<Seq<char>, Seq<char>>::empty(),
    {
        SourceTextStore { entries: Vec::new() }
    }

    /// Stores `text` under `path`, in place of a text stored there before.
    pub fn insert(&mut self, path: String, text: String)
        ensures
            final(self)@ == old(self)@.insert(path@, text@),
    {
        self.entries.push(SourceText { path, text });
        assert(self.entries@.drop_last() == old(self).entries@);
    }

    /// The text stored under `path`.
    pub fn get(&self, path: &str) -> (found: Option<&String>)
        ensures
            match found {
                Some(text) => self@.contains_key(path@) && self@[path@] == text@,
                None => !self@.contains_key(path@),
            },
    {
        let ghost entries = self.entries@;
        let mut i: usize = self.entries.len();
        assert(entries.take(i as int) == entries);
        while i > 0
            invariant
                i <= entries.len(),
                entries == self.entries@,
                texts_of(entries).contains_key(path@) == texts_of(
                    entries.take(i as int),
                ).contains_key(path@),
                texts_of(entries).contains_key(path@) ==> texts_of(entries)[path@] == texts_of(
                    entries.take(i as int),
                )[path@],
            decreases i,
        {
            assert(entries.take(i as int).drop_last() == entries.take(i - 1));
            if str_eq(self.entries[i - 1].path.as_str(), path) {
                return Some(&self.entries[i - 1].text);
            }
            i = i - 1;
        }
        None
    }

    /// Stores every text of `other`, in place of the texts stored under the
    /// same paths before.
    pub fn append(&mut self, other: SourceTextStore)
        ensures
            final(self)@ == old(self)@.union_prefer_right(other@),
    {
        let mut other = other;
        proof {
            lemma_texts_of_concat(self.entries@, other.entries@);
        }
        self.entries.append(&mut other.entries);
    }

    /// Whether a text is stored under `path`.
    pub fn contains_key(&self, path: &str) -> (held: bool)
        ensures
            held == self@.contains_key(path@),
    {
        self.get(path).is_some()
    }
}

impl Default for SourceTextStore {
    fn default() -> (store: SourceTextStore)
        ensures
            store@ == Map::<Seq<char>, Seq<char>>::empty(),
    {
        SourceTextStore::new()
    }
}

/// Everything that was extracted: one sequence for each category of record,
/// each in the order in which the records were found, and the texts of the
/// files that they were found in.
#[derive(Clone, Debug)]
pub struct ExtractedData {
    /// The struct declarations.
    pub structs: Vec<StructInfo>,
    /// The function declarations.
    pub functions: Vec<FunctionInfo>,
    /// The type aliases.
    pub type_aliases: Vec<TypeAliasInfo>,
    /// The impl blocks.
    pub impls: Vec<ImplInfo>,
    /// The use declarations.
    pub use_dependencies: Vec<UseDependencyInfo>,
    /// The module declarations.
    pub mods: Vec<ModInfo>,
    /// The enum declarations.
    pub enums: Vec<EnumInfo>,
    /// The macro invocations.
    pub macros: Vec<MacroInfo>,
    /// The text of every file that was indexed, by the file's path.
    pub file_contents: SourceTextStore,
}

/// The mathematical model of an [`ExtractedData`].
pub ghost struct ExtractedDataModel {
    pub structs: Seq<StructInfoModel>,
    pub functions: Seq<FunctionInfoModel>,
    pub type_aliases: Seq<TypeAliasInfoModel>,
    pub impls: Seq<ImplInfoModel>,
    pub use_dependencies: Seq<UseDependencyInfoModel>,
    pub mods: Seq<ModInfoModel>,
    pub enums: Seq<EnumInfoModel>,
    pub macros: Seq<MacroInfoModel>,
    pub file_contents: Map<Seq<char>, Seq<char>>,
}

/// One record of any category.
pub ghost enum RecordModel {
    Struct(StructInfoModel),
    Function(FunctionInfoModel),
    TypeAlias(TypeAliasInfoModel),
    Impl(ImplInfoModel),
    UseDependency(UseDependencyInfoModel),
    Mod(ModInfoModel),
    Enum(EnumInfoModel),
    Macro(MacroInfoModel),
}

impl RecordModel {
    /// The file that the record belongs to.
    pub open spec fn file_path(self) -> Seq<char> {
        match self {
            RecordModel::Struct(r) => r.file_path,
            RecordModel::Function(r) => r.file_path,
            RecordModel::TypeAlias(r) => r.file_path,
            RecordModel::Impl(r) => r.file_path,
            RecordModel::UseDependency(r) => r.file_path,
            RecordModel::Mod(r) => r.file_path,
            RecordModel::Enum(r) => r.file_path,
            RecordModel::Macro(r) => r.file_path,
        }
    }

    /// The record with its frame set: the file that it belongs to and the
    /// byte range that it spans.
    pub open spec fn framed(
        self,
        file_path: Seq<char>,
        start_position: usize,
        end_position: usize,
    ) -> RecordModel {
        match self {
            RecordModel::Struct(r) => RecordModel::Struct(
                StructInfoModel { file_path, start_position, end_position, ..r },
            ),
            RecordModel::Function(r) => RecordModel::Function(
                FunctionInfoModel { file_path, start_position, end_position, ..r },
            ),
            RecordModel::TypeAlias(r) => RecordModel::TypeAlias(
                TypeAliasInfoModel { file_path, start_position, end_position, ..r },
            ),
            RecordModel::Impl(r) => RecordModel::Impl(
                ImplInfoModel { file_path, start_position, end_position, ..r },
            ),
            RecordModel::UseDependency(r) => RecordModel::UseDependency(
                UseDependencyInfoModel { file_path, start_position, end_position, ..r },
            ),
            RecordModel::Mod(r) => RecordModel::Mod(
                ModInfoModel { file_path, start_position, end_position, ..r },
            ),
            RecordModel::Enum(r) => RecordModel::Enum(
                EnumInfoModel { file_path, start_position, end_position, ..r },
            ),
            RecordModel::Macro(r) => RecordModel::Macro(
                MacroInfoModel { file_path, start_position, end_position, ..r },
            ),
        }
    }

    /// The offset at which the record's byte range starts.
    pub open spec fn start_position(self) -> usize {
        match self {
            RecordModel::Struct(r) => r.start_position,
            RecordModel::Function(r) => r.start_position,
            RecordModel::TypeAlias(r) => r.start_position,
            RecordModel::Impl(r) => r.start_position,
            RecordModel::UseDependency(r) => r.start_position,
            RecordModel::Mod(r) => r.start_position,
            RecordModel::Enum(r) => r.start_position,
            RecordModel::Macro(r) => r.start_position,
        }
    }

    /// The offset at which the record's byte range ends.
    pub open spec fn end_position(self) -> usize {
        match self {
            RecordModel::Struct(r) => r.end_position,
            RecordModel::Function(r) => r.end_position,
            RecordModel::TypeAlias(r) => r.end_position,
            RecordModel::Impl(r) => r.end_position,
            RecordModel::UseDependency(r) => r.end_position,
            RecordModel::Mod(r) => r.end_position,
            RecordModel::Enum(r) => r.end_position,
            RecordModel::Macro(r) => r.end_position,
        }
    }
}

impl ExtractedDataModel {
    /// The store that holds nothing.
    pub open spec fn empty() -> ExtractedDataModel {
        ExtractedDataModel {
            structs: Seq::empty(),
            functions: Seq::empty(),
            type_aliases: Seq::empty(),
            impls: Seq::empty(),
            use_dependencies: Seq::empty(),
            mods: Seq::empty(),
            enums: Seq::empty(),
            macros: Seq::empty(),
            file_contents: Map::empty(),
        }
    }

    /// The store with `record` appended to the category that it belongs to.
    pub open spec fn with(self, record: RecordModel) -> ExtractedDataModel {
        match record {
            RecordModel::Struct(r) => ExtractedDataModel { structs: self.structs.push(r), ..self },
            RecordModel::Function(r) => ExtractedDataModel {
                functions: self.functions.push(r),
                ..self
            },
            RecordModel::TypeAlias(r) => ExtractedDataModel {
                type_aliases: self.type_aliases.push(r),
                ..self
            },
            RecordModel::Impl(r) => ExtractedDataModel { impls: self.impls.push(r), ..self },
            RecordModel::UseDependency(r) => ExtractedDataModel {
                use_dependencies: self.use_dependencies.push(r),
                ..self
            },
            RecordModel::Mod(r) => ExtractedDataModel { mods: self.mods.push(r), ..self },
            RecordModel::Enum(r) => ExtractedDataModel { enums: self.enums.push(r), ..self },
            RecordModel::Macro(r) => ExtractedDataModel { macros: self.macros.push(r), ..self },
        }
    }

    /// The store with the records of `other` behind its own in every
    /// category, and with the texts of both, those of `other` in place of
    /// its own under the same paths.
    pub open spec fn merged(self, other: ExtractedDataModel) -> ExtractedDataModel {
        ExtractedDataModel {
            structs: self.structs + other.structs,
            functions: self.functions + other.functions,
            type_aliases: self.type_aliases + other.type_aliases,
            impls: self.impls + other.impls,
            use_dependencies: self.use_dependencies + other.use_dependencies,
            mods: self.mods + other.mods,
            enums: self.enums + other.enums,
            macros: self.macros + other.macros,
            file_contents: self.file_contents.union_prefer_right(other.file_contents),
        }
    }

    /// The store with `text` kept under `path`.
    pub open spec fn with_text(self, path: Seq<char>, text: Seq<char>) -> ExtractedDataModel {
        ExtractedDataModel { file_contents: self.file_contents.insert(path, text), ..self }
    }

    /// Whether `record` stands in the category that it belongs to.
    pub open spec fn holds(self, record: RecordModel) -> bool {
        match record {
            RecordModel::Struct(r) => self.structs.contains(r),
            RecordModel::Function(r) => self.functions.contains(r),
            RecordModel::TypeAlias(r) => self.type_aliases.contains(r),
            RecordModel::Impl(r) => self.impls.contains(r),
            RecordModel::UseDependency(r) => self.use_dependencies.contains(r),
            RecordModel::Mod(r) => self.mods.contains(r),
            RecordModel::Enum(r) => self.enums.contains(r),
            RecordModel::Macro(r) => self.macros.contains(r),
        }
    }

    /// How many records the store holds, over all categories.
    pub open spec fn count(self) -> nat {
        self.structs.len() + self.functions.len() + self.type_aliases.len() + self.impls.len()
            + self.use_dependencies.len() + self.mods.len() + self.enums.len() + self.macros.len()
    }

    /// Whether the text of every record's file is held.
    pub open spec fn consistent(self) -> bool {
        forall|record: RecordModel| #[trigger]
            self.holds(record) ==> self.file_contents.contains_key(record.file_path())
    }

    /// Whether every record's byte range can be cut out of its file's text.
    pub open spec fn sliceable(self) -> bool {
        forall|record: RecordModel| #[trigger]
            self.holds(record) ==> self.file_contents.contains_key(record.file_path())
                && slice_text(
                self.file_contents[record.file_path()],
                record.start_position() as int,
                record.end_position() as int,
            ) is Some
    }
}

impl DeepView for ExtractedData {
    type V = ExtractedDataModel;

    open spec fn deep_view(&self) -> ExtractedDataModel {
        ExtractedDataModel {
            structs: self.structs.deep_view(),
            functions: self.functions.deep_view(),
            type_aliases: self.type_aliases.deep_view(),
            impls: self.impls.deep_view(),
            use_dependencies: self.use_dependencies.deep_view(),
            mods: self.mods.deep_view(),
            enums: self.enums.deep_view(),
            macros: self.macros.deep_view(),
            file_contents: self.file_contents@,
        }
    }
}

impl ExtractedData {
    /// A store that holds nothing.
    pub fn new() -> (data: ExtractedData)
        ensures
            data.deep_view() == ExtractedDataModel::empty(),
    {
        let data = ExtractedData {
            structs: Vec::new(),
            functions: Vec::new(),
            type_aliases: Vec::new(),
            impls: Vec::new(),
            use_dependencies: Vec::new(),
            mods: Vec::new(),
            enums: Vec::new(),
            macros: Vec::new(),
            file_contents: SourceTextStore::new(),
        };
        assert(data.structs.deep_view() =~= Seq::empty());
        assert(data.functions.deep_view() =~= Seq::empty());
        assert(data.type_aliases.deep_view() =~= Seq::empty());
        assert(data.impls.deep_view() =~= Seq::empty());
        assert(data.use_dependencies.deep_view() =~= Seq::empty());
        assert(data.mods.deep_view() =~= Seq::empty());
        assert(data.enums.deep_view() =~= Seq::empty());
        assert(data.macros.deep_view() =~= Seq::empty());
        data
    }

    /// Takes over what `other` holds: its records go behind the store's own
    /// in every category, and its texts take the place of the store's own
    /// under the same paths.
    pub fn merge(&mut self, other: ExtractedData)
        ensures
            final(self).deep_view() == old(self).deep_view().merged(other.deep_view()),
    {
        let mut other = other;
        let ghost before = self.deep_view();
        let ghost added = other.deep_view();
        self.structs.append(&mut other.structs);
        self.functions.append(&mut other.functions);
        self.type_aliases.append(&mut other.type_aliases);
        self.impls.append(&mut other.impls);
        self.use_dependencies.append(&mut other.use_dependencies);
        self.mods.append(&mut other.mods);
        self.enums.append(&mut other.enums);
        self.macros.append(&mut other.macros);
        self.file_contents.append(other.file_contents);
        assert(self.structs.deep_view() =~= before.structs + added.structs);
        assert(self.functions.deep_view() =~= before.functions + added.functions);
        assert(self.type_aliases.deep_view() =~= before.type_aliases + added.type_aliases);
        assert(self.impls.deep_view() =~= before.impls + added.impls);
        assert(self.use_dependencies.deep_view() =~= before.use_dependencies
            + added.use_dependencies);
        assert(self.mods.deep_view() =~= before.mods + added.mods);
        assert(self.enums.deep_view() =~= before.enums + added.enums);
        assert(self.macros.deep_view() =~= before.macros + added.macros);
    }

    /// The text of the byte range `start..end` of the file stored under
    /// `file_path`: the source of a record with that range.
    pub fn source_block(&self, file_path: &str, start: usize, end: usize) -> (block: Option<
        String,
    >)
        ensures
            block.deep_view() == if self.deep_view().file_contents.contains_key(file_path@) {
                slice_text(self.deep_view().file_contents[file_path@], start as int, end as int)
            } else {
                None
            },
    {
        match self.file_contents.get(file_path) {
            Some(code) => read_text(code.as_str(), start, end),
            None => None,
        }
    }
}

impl Default for ExtractedData {
    fn default() -> (data: ExtractedData)
        ensures
            data.deep_view() == ExtractedDataModel::empty(),
    {
        ExtractedData::new()
    }
}

} // verus!
