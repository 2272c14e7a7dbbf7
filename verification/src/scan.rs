//! Reading a directory listing: which entries are source files to build, and
//! which are object files to link.

use vstd::prelude::*;
use crate::error::{BuildError, BuildErrorView};
use crate::path::{extension, extension_of, join, joined, lemma_joined_lies_in, lies_in};
use crate::project::Lang;
use crate::stale::Timestamp;
use crate::text::same_text;
use crate::views::{lemma_views_push, views};

verus! {

/// What is known of a directory entry.
#[derive(Debug, Clone, Copy, PartialEq, Eq, Structural)]
pub enum EntryKind {
    /// A regular file, last modified at the given time.
    File { modified: Timestamp },
    /// Anything that is not a regular file.
    Other,
    /// The entry's metadata could not be read.
    Unknown,
}

/// One entry of a directory: its name within the directory and what is known
/// of it.
#[derive(Debug, Clone, PartialEq, Eq)]
pub struct DirEntry {
    pub name: String,
    pub kind: EntryKind,
}

/// [`DirEntry`] as a mathematical value.
pub struct DirEntryView {
    pub name: Seq<char>,
    pub kind: EntryKind,
}

impl View for DirEntry {
    type V = DirEntryView;

    open spec fn view(&self) -> DirEntryView {
        DirEntryView { name: self.name@, kind: self.kind }
    }
}

/// A source file of the project.
#[derive(Debug, Clone, PartialEq, Eq)]
pub struct SourceEntry {
    /// The file's name within the source directory.
    pub name: String,
    /// The file's path.
    pub path: String,
    pub language: Lang,
    /// When the file was last modified.
    pub modified: Timestamp,
}

/// [`SourceEntry`] as a mathematical value.
pub struct SourceEntryView {
    pub name: Seq<char>,
    pub path: Seq<char>,
    pub language: Lang,
    pub modified: Timestamp,
}

impl View for SourceEntry {
    type V = SourceEntryView;

    open spec fn view(&self) -> SourceEntryView {
        SourceEntryView {
            name: self.name@,
            path: self.path@,
            language: self.language,
            modified: self.modified,
        }
    }
}

/// The source file that an entry of the directory `dir` stands for: the entry
/// is one if it is a regular file whose extension names a language.
pub open spec fn source_of(dir: Seq<char>, entry: DirEntryView) -> Option<SourceEntryView> {
    match entry.kind {
        EntryKind::File { modified } => match Lang::of_file_name(entry.name) {
            Some(language) => Some(
                SourceEntryView {
                    name: entry.name,
                    path: joined(dir, entry.name),
                    language,
                    modified,
                },
            ),
            None => None,
        },
        _ => None,
    }
}

/// The object file that an entry of the directory `dir` stands for, by its
/// path: the entry is one if it is a regular file with the extension `o`.
pub open spec fn object_of(dir: Seq<char>, entry: DirEntryView) -> Option<Seq<char>> {
    if entry.kind is File && extension_of(entry.name) == Some("o"@) {
        Some(joined(dir, entry.name))
    } else {
        None
    }
}

/// Whether the entry at `at` is the first one whose metadata is unknown.
pub open spec fn is_first_unknown(entries: Seq<DirEntryView>, at: int) -> bool {
    &&& 0 <= at < entries.len()
    &&& entries[at].kind is Unknown
    &&& forall|j: int| 0 <= j < at ==> !(entries[j].kind is Unknown)
}

/// The index of the first entry whose metadata is unknown, if there is one.
pub open spec fn first_unknown(entries: Seq<DirEntryView>) -> Option<int> {
    if exists|at: int| is_first_unknown(entries, at) {
        Some(choose|at: int| is_first_unknown(entries, at))
    } else {
        None
    }
}

/// The source files among the entries of the directory `dir`, in the order of
/// the listing.
pub open spec fn sources_in(dir: Seq<char>, entries: Seq<DirEntryView>) -> Seq<SourceEntryView> {
    entries.filter_map(|entry: DirEntryView| source_of(dir, entry))
}

/// The paths of the object files among the entries of the directory `dir`, in
/// the order of the listing.
pub open spec fn objects_in(dir: Seq<char>, entries: Seq<DirEntryView>) -> Seq<Seq<char>> {
    entries.filter_map(|entry: DirEntryView| object_of(dir, entry))
}

/// What a scan of the directory `dir` finds: its source files, in the order
/// of the listing. An entry whose metadata is unknown fails the scan,
/// whatever its name; the error names the first such entry.
pub open spec fn scanned(dir: Seq<char>, entries: Seq<DirEntryView>) -> Result<
    Seq<SourceEntryView>,
    BuildErrorView,
> {
    match first_unknown(entries) {
        Some(at) => Err(BuildErrorView::MetadataUnavailable { path: joined(dir, entries[at].name) }),
        None => Ok(sources_in(dir, entries)),
    }
}

/// What a collection in the directory `dir` finds: the paths of its object
/// files, in the order of the listing. An entry whose metadata is unknown
/// fails the collection, whatever its name; the error names the first such
/// entry.
pub open spec fn collected(dir: Seq<char>, entries: Seq<DirEntryView>) -> Result<
    Seq<Seq<char>>,
    BuildErrorView,
> {
    match first_unknown(entries) {
        Some(at) => Err(BuildErrorView::MetadataUnavailable { path: joined(dir, entries[at].name) }),
        None => Ok(objects_in(dir, entries)),
    }
}

/// Only one entry is the first whose metadata is unknown.
pub proof fn lemma_first_unknown_is(entries: Seq<DirEntryView>, at: int)
    requires
        is_first_unknown(entries, at),
    ensures
        first_unknown(entries) == Some(at),
{
}

/// Where the metadata of every entry is known, no entry is the first whose
/// metadata is unknown.
pub proof fn lemma_no_unknown(entries: Seq<DirEntryView>)
    requires
        forall|j: int| 0 <= j < entries.len() ==> !(entries[j].kind is Unknown),
    ensures
        first_unknown(entries) is None,
{
}

/// Finds the source files in the listing of the source directory `dir`.
pub fn scan_sources(dir: &str, entries: &Vec<DirEntry>) -> (found: Result<
    Vec<SourceEntry>,
    BuildError,
>)
    ensures
        match found {
            Ok(sources) => scanned(dir@, views(entries@)) == Ok::<
                Seq<SourceEntryView>,
                BuildErrorView,
            >(views(sources@)),
            Err(error) => scanned(dir@, views(entries@)) == Err::<
                Seq<SourceEntryView>,
                BuildErrorView,
            >(error@),
        },
{
    let ghost listing = views(entries@);
    let mut sources: Vec<SourceEntry> = Vec::new();
    let mut i: usize = 0;
    while i < entries.len()
        invariant
            i <= entries.len(),
            listing == views(entries@),
            forall|j: int| 0 <= j < i ==> !(listing[j].kind is Unknown),
            views(sources@) == sources_in(dir@, listing.take(i as int)),
        decreases entries.len() - i,
    {
        let entry = &entries[i];
        proof {
            listing.lemma_filter_map_take_succ(
                |entry: DirEntryView| source_of(dir@, entry),
                i as int,
            );
        }
        match entry.kind {
            EntryKind::Unknown => {
                let path = join(dir, entry.name.as_str());
                proof {
                    lemma_first_unknown_is(listing, i as int);
                }
                return Err(BuildError::MetadataUnavailable { path });
            },
            EntryKind::Other => {},
            EntryKind::File { modified } => {
                match Lang::of_name(entry.name.as_str()) {
                    Some(language) => {
                        let source = SourceEntry {
                            name: entry.name.clone(),
                            path: join(dir, entry.name.as_str()),
                            language,
                            modified,
                        };
                        proof {
                            lemma_views_push(sources@, source);
                        }
                        sources.push(source);
                    },
                    None => {},
                }
            },
        }
        i += 1;
    }
    proof {
        assert(listing.take(entries.len() as int) =~= listing);
        lemma_no_unknown(listing);
    }
    Ok(sources)
}

/// Finds the object files in the listing of the output directory `dir`.
pub fn collect_objects(dir: &str, entries: &Vec<DirEntry>) -> (found: Result<
    Vec<String>,
    BuildError,
>)
    ensures
        match found {
            Ok(objects) => collected(dir@, views(entries@)) == Ok::<Seq<Seq<char>>, BuildErrorView>(
                views(objects@),
            ),
            Err(error) => collected(dir@, views(entries@)) == Err::<
                Seq<Seq<char>>,
                BuildErrorView,
            >(error@),
        },
{
    let ghost listing = views(entries@);
    let mut objects: Vec<String> = Vec::new();
    let mut i: usize = 0;
    while i < entries.len()
        invariant
            i <= entries.len(),
            listing == views(entries@),
            forall|j: int| 0 <= j < i ==> !(listing[j].kind is Unknown),
            views(objects@) == objects_in(dir@, listing.take(i as int)),
        decreases entries.len() - i,
    {
        let entry = &entries[i];
        proof {
            listing.lemma_filter_map_take_succ(
                |entry: DirEntryView| object_of(dir@, entry),
                i as int,
            );
        }
        match entry.kind {
            EntryKind::Unknown => {
                let path = join(dir, entry.name.as_str());
                proof {
                    lemma_first_unknown_is(listing, i as int);
                }
                return Err(BuildError::MetadataUnavailable { path });
            },
            EntryKind::Other => {},
            EntryKind::File { modified: _ } => {
                let is_object = match extension(entry.name.as_str()) {
                    Some(ext) => same_text(ext, "o"),
                    None => false,
                };
                if is_object {
                    let path = join(dir, entry.name.as_str());
                    proof {
                        lemma_views_push(objects@, path);
                    }
                    objects.push(path);
                }
            },
        }
        i += 1;
    }
    proof {
        assert(listing.take(entries.len() as int) =~= listing);
        lemma_no_unknown(listing);
    }
    Ok(objects)
}

/// Every source that a scan finds lies in the directory that was scanned,
/// under the name of its entry, and has the language of its extension.
pub proof fn lemma_scanned_sources(dir: Seq<char>, entries: Seq<DirEntryView>)
    ensures
        scanned(dir, entries) matches Ok(sources) ==> forall|i: int|
            0 <= i < sources.len() ==> {
                &&& (#[trigger] sources[i]).path == joined(dir, sources[i].name)
                &&& Lang::of_file_name(sources[i].name) == Some(sources[i].language)
            },
{
    let sources = sources_in(dir, entries);
    assert forall|i: int| 0 <= i < sources.len() implies {
        &&& (#[trigger] sources[i]).path == joined(dir, sources[i].name)
        &&& Lang::of_file_name(sources[i].name) == Some(sources[i].language)
    } by {
        entries.lemma_filter_map_contains(
            |entry: DirEntryView| source_of(dir, entry),
            sources[i],
        );
    }
}

/// Every object file that a collection finds lies in the directory that was
/// listed, as long as that directory is not the empty path and does not end
/// in `/`.
pub proof fn lemma_collected_lie_in(dir: Seq<char>, entries: Seq<DirEntryView>)
    requires
        dir.len() > 0,
        dir.last() != '/',
    ensures
        collected(dir, entries) matches Ok(objects) ==> forall|j: int|
            0 <= j < objects.len() ==> lies_in(#[trigger] objects[j], dir),
{
    let objects = objects_in(dir, entries);
    assert forall|j: int| 0 <= j < objects.len() implies lies_in(#[trigger] objects[j], dir) by {
        entries.lemma_filter_map_contains(
            |entry: DirEntryView| object_of(dir, entry),
            objects[j],
        );
        let entry = choose|entry: DirEntryView| #[trigger]
            entries.contains(entry) && object_of(dir, entry) == Some(objects[j]);
        lemma_joined_lies_in(dir, entry.name);
    }
}

} // verus!
