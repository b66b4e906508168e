//! The directory walker's decisions: which of the entries that a recursive
//! directory listing yields are source files to index.
//!
//! The listing itself, and the reading of the files, is the caller's part.
//! The caller hands each entry over, in the order of a depth-first listing
//! in which a directory comes before what it holds, and is told what to do
//! with it.

use vstd::prelude::*;
use crate::text::str_eq;

verus! {

/// The extension that marks a file as Rust source.
pub const SOURCE_EXTENSION: &'static str = "rs";

/// One entry of a recursive directory listing.
#[derive(Clone, Debug)]
pub struct WalkEntry {
    /// The entry's bare name, without the directories that lead to it.
    pub file_name: String,
    /// How many directories below the root the entry lies; 0 for the root.
    pub depth: usize,
    /// Whether the entry is a directory.
    pub is_dir: bool,
    /// Whether the entry is a file.
    pub is_file: bool,
    /// The extension of the entry's name, without the dot.
    pub extension: Option<String>,
}

/// The mathematical model of a [`WalkEntry`].
pub ghost struct WalkEntryModel {
    pub file_name: Seq<char>,
    pub depth: usize,
    pub is_dir: bool,
    pub is_file: bool,
    pub extension: Option<Seq<char>>,
}

impl DeepView for WalkEntry {
    type V = WalkEntryModel;

    open spec fn deep_view(&self) -> WalkEntryModel {
        WalkEntryModel {
            file_name: self.file_name@,
            depth: self.depth,
            is_dir: self.is_dir,
            is_file: self.is_file,
            extension: self.extension.deep_view(),
        }
    }
}

/// What to do with an entry of the listing.
#[derive(Clone, Copy, Debug, PartialEq, Eq, Structural)]
pub enum EntryAction {
    /// Pass the entry over.
    Skip,
    /// The entry is an ignored directory: pass it over, and everything below
    /// it will be passed over too.
    Ignore,
    /// Read, parse and index the file.
    Index,
}

/// Whether `entry` is a directory to ignore: one below the root whose bare
/// name is in the ignore list.
pub open spec fn is_ignored_directory(entry: WalkEntryModel, ignored: Seq<Seq<char>>) -> bool {
    entry.depth > 0 && entry.is_dir && ignored.contains(entry.file_name)
}

/// Whether `entry` is a file with the extension of Rust source.
pub open spec fn is_source_file(entry: WalkEntryModel) -> bool {
    entry.is_file && entry.extension == Some(SOURCE_EXTENSION@)
}

/// Whether an entry at the depth `depth` lies below a directory at the
/// depth `pruned` that was ignored and has not been left yet.
pub open spec fn is_pruned(pruned: Option<usize>, depth: usize) -> bool {
    pruned is Some && depth > pruned->0
}

/// The depth of the ignored directory that the walk is in after `entry`,
/// having been in `pruned` before it.
pub open spec fn pruned_after(
    pruned: Option<usize>,
    entry: WalkEntryModel,
    ignored: Seq<Seq<char>>,
) -> Option<usize> {
    if is_pruned(pruned, entry.depth) {
        pruned
    } else if is_ignored_directory(entry, ignored) {
        Some(entry.depth)
    } else {
        None
    }
}

/// What to do with `entry`, the walk being in `pruned` before it.
pub open spec fn action_for(
    pruned: Option<usize>,
    entry: WalkEntryModel,
    ignored: Seq<Seq<char>>,
) -> EntryAction {
    if is_pruned(pruned, entry.depth) {
        EntryAction::Skip
    } else if is_ignored_directory(entry, ignored) {
        EntryAction::Ignore
    } else if is_source_file(entry) {
        EntryAction::Index
    } else {
        EntryAction::Skip
    }
}

/// The depth of the ignored directory that the walk is in before the entry
/// at the position `position` of the listing `entries`.
pub open spec fn pruned_before(
    entries: Seq<WalkEntryModel>,
    position: int,
    ignored: Seq<Seq<char>>,
) -> Option<usize>
    decreases position,
{
    if position <= 0 || position > entries.len() {
        None
    } else {
        pruned_after(pruned_before(entries, position - 1, ignored), entries[position - 1], ignored)
    }
}

/// Whether the entry at `position` of the listing `entries` is indexed.
pub open spec fn is_selected(
    entries: Seq<WalkEntryModel>,
    position: int,
    ignored: Seq<Seq<char>>,
) -> bool {
    action_for(pruned_before(entries, position, ignored), entries[position], ignored)
        == EntryAction::Index
}

/// Whether the entry at `inner` lies below the directory at `outer` in the
/// listing `entries`: every entry after the directory, up to and including
/// that entry, lies deeper than the directory.
pub open spec fn lies_below(entries: Seq<WalkEntryModel>, outer: int, inner: int) -> bool {
    &&& 0 <= outer < inner < entries.len()
    &&& forall|k: int| outer < k <= inner ==> (#[trigger] entries[k]).depth > entries[outer].depth
}

/// Whether the entry at `position` lies below an ignored directory.
pub open spec fn is_below_ignored(
    entries: Seq<WalkEntryModel>,
    position: int,
    ignored: Seq<Seq<char>>,
) -> bool {
    exists|outer: int|
        is_ignored_directory(#[trigger] entries[outer], ignored) && lies_below(
            entries,
            outer,
            position,
        )
}

/// While the walk is below an ignored directory, it stays there for as
/// long as the entries lie deeper than that directory.
proof fn lemma_stays_pruned(
    entries: Seq<WalkEntryModel>,
    from: int,
    to: int,
    ignored: Seq<Seq<char>>,
)
    requires
        0 <= from <= to <= entries.len(),
        pruned_before(entries, from, ignored) is Some,
        forall|k: int|
            from <= k < to ==> (#[trigger] entries[k]).depth > pruned_before(
                entries,
                from,
                ignored,
            )->0,
    ensures
        pruned_before(entries, to, ignored) == pruned_before(entries, from, ignored),
    decreases to - from,
{
    if from < to {
        lemma_stays_pruned(entries, from, to - 1, ignored);
        assert(entries[to - 1].depth > pruned_before(entries, from, ignored)->0);
    }
}

/// After an ignored directory the walk is below an ignored directory that
/// lies no deeper.
proof fn lemma_pruned_at_ignored(entries: Seq<WalkEntryModel>, at: int, ignored: Seq<Seq<char>>)
    requires
        0 <= at < entries.len(),
        is_ignored_directory(entries[at], ignored),
    ensures
        pruned_before(entries, at + 1, ignored) is Some,
        pruned_before(entries, at + 1, ignored)->0 <= entries[at].depth,
{
}

/// The walk is below an ignored directory only after such a directory,
/// with nothing but deeper entries since.
proof fn lemma_pruned_has_cause(entries: Seq<WalkEntryModel>, position: int, ignored: Seq<Seq<char>>)
    requires
        0 <= position <= entries.len(),
        pruned_before(entries, position, ignored) is Some,
    ensures
        exists|outer: int|
            {
                &&& 0 <= outer < position
                &&& is_ignored_directory(#[trigger] entries[outer], ignored)
                &&& entries[outer].depth == pruned_before(entries, position, ignored)->0
                &&& forall|k: int|
                    outer < k < position ==> (#[trigger] entries[k]).depth > entries[outer].depth
            },
    decreases position,
{
    let before = pruned_before(entries, position - 1, ignored);
    let entry = entries[position - 1];
    if is_pruned(before, entry.depth) {
        lemma_pruned_has_cause(entries, position - 1, ignored);
        let outer = choose|outer: int|
            {
                &&& 0 <= outer < position - 1
                &&& is_ignored_directory(#[trigger] entries[outer], ignored)
                &&& entries[outer].depth == before->0
                &&& forall|k: int|
                    outer < k < position - 1 ==> (#[trigger] entries[k]).depth
                        > entries[outer].depth
            };
        assert(is_ignored_directory(entries[outer], ignored));
        assert forall|k: int| outer < k < position implies (#[trigger] entries[k]).depth
            > entries[outer].depth by {
        }
    } else {
        assert(is_ignored_directory(entries[position - 1], ignored));
    }
}

/// An entry is indexed if and only if it is a source file, is not itself
/// an ignored directory, and lies below no ignored directory.
pub proof fn lemma_selected_iff_outside_ignored(
    entries: Seq<WalkEntryModel>,
    position: int,
    ignored: Seq<Seq<char>>,
)
    requires
        0 <= position < entries.len(),
    ensures
        is_selected(entries, position, ignored) <==> (is_source_file(entries[position])
            && !is_ignored_directory(entries[position], ignored) && !is_below_ignored(
            entries,
            position,
            ignored,
        )),
{
    let pruned = pruned_before(entries, position, ignored);
    if is_below_ignored(entries, position, ignored) {
        let outer = choose|outer: int|
            is_ignored_directory(#[trigger] entries[outer], ignored) && lies_below(
                entries,
                outer,
                position,
            );
        lemma_pruned_at_ignored(entries, outer, ignored);
        assert forall|k: int| outer + 1 <= k < position implies (#[trigger] entries[k]).depth
            > pruned_before(entries, outer + 1, ignored)->0 by {
            assert(entries[k].depth > entries[outer].depth);
        }
        lemma_stays_pruned(entries, outer + 1, position, ignored);
        assert(entries[position].depth > entries[outer].depth);
        assert(is_pruned(pruned, entries[position].depth));
    }
    if is_pruned(pruned, entries[position].depth) {
        lemma_pruned_has_cause(entries, position, ignored);
        let outer = choose|outer: int|
            {
                &&& 0 <= outer < position
                &&& is_ignored_directory(#[trigger] entries[outer], ignored)
                &&& entries[outer].depth == pruned->0
                &&& forall|k: int|
                    outer < k < position ==> (#[trigger] entries[k]).depth > entries[outer].depth
            };
        assert(lies_below(entries, outer, position));
        assert(is_ignored_directory(entries[outer], ignored));
    }
}

/// Whether `name` is one of `names`.
pub fn contains_name(names: &Vec<String>, name: &str) -> (found: bool)
    ensures
        found == names.deep_view().contains(name@),
{
    let mut i: usize = 0;
    while i < names.len()
        invariant
            i <= names@.len(),
            forall|j: int| 0 <= j < i ==> names.deep_view()[j] != name@,
        decreases names@.len() - i,
    {
        if str_eq(names[i].as_str(), name) {
            assert(names.deep_view()[i as int] == name@);
            return true;
        }
        i = i + 1;
    }
    false
}

/// The state of a walk over a directory listing.
#[derive(Clone, Debug)]
pub struct DirectoryWalk {
    /// The bare names of the directories to ignore.
    pub ignored: Vec<String>,
    /// The depth of the ignored directory that the walk is in, if it is in
    /// one.
    pub pruned: Option<usize>,
}

impl DirectoryWalk {
    /// A walk that has not seen an entry yet and ignores the directories
    /// named in `ignored_directories`, if any are given.
    pub fn new(ignored_directories: Option<Vec<String>>) -> (walk: DirectoryWalk)
        ensures
            walk.pruned is None,
            walk.ignored.deep_view() == match ignored_directories {
                Some(names) => names.deep_view(),
                None => Seq::empty(),
            },
    {
        match ignored_directories {
            Some(names) => DirectoryWalk { ignored: names, pruned: None },
            None => {
                let names: Vec<String> = Vec::new();
                assert(names.deep_view() =~= Seq::empty());
                DirectoryWalk { ignored: names, pruned: None }
            },
        }
    }

    /// Takes the next entry of the listing and says what to do with it.
    ///
    /// An ignored directory is announced as such and passed over with
    /// everything below it; of the other entries, the Rust source files are
    /// indexed.
    pub fn step(&mut self, entry: &WalkEntry) -> (action: EntryAction)
        ensures
            action == action_for(old(self).pruned, entry.deep_view(), old(self).ignored.deep_view()),
            final(self).pruned == pruned_after(
                old(self).pruned,
                entry.deep_view(),
                old(self).ignored.deep_view(),
            ),
            final(self).ignored == old(self).ignored,
    {
        match self.pruned {
            Some(depth) => {
                if entry.depth > depth {
                    return EntryAction::Skip;
                }
            },
            None => {},
        }
        if entry.depth > 0 && entry.is_dir && contains_name(&self.ignored, entry.file_name.as_str()) {
            self.pruned = Some(entry.depth);
            return EntryAction::Ignore;
        }
        self.pruned = None;
        let source = match &entry.extension {
            Some(extension) => entry.is_file && str_eq(extension.as_str(), SOURCE_EXTENSION),
            None => false,
        };
        if source {
            EntryAction::Index
        } else {
            EntryAction::Skip
        }
    }
}

} // verus!
