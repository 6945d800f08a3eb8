//! The directory lister: from what a scan of one directory found to the
//! entries that a listing shows.
//!
//! The lister looks at one level only. It neither sorts nor hides anything,
//! and it takes a path as it is given: nothing keeps a path inside the root.

use vstd::prelude::*;

verus! {

/// The directory that the server shows: the one it was started in.
pub const SERVER_ROOT: &'static str = ".";

/// One line of a listing: a child of the directory and whether it is a
/// directory itself.
#[derive(Debug, PartialEq, Eq)]
pub struct DirectoryEntry {
    pub name: String,
    pub is_dir: bool,
}

/// A [`DirectoryEntry`] with its name as a sequence of characters.
pub struct EntryView {
    pub name: Seq<char>,
    pub is_dir: bool,
}

impl View for DirectoryEntry {
    type V = EntryView;

    open spec fn view(&self) -> EntryView {
        EntryView { name: self.name@, is_dir: self.is_dir }
    }
}

/// A child that a scan came upon. `is_dir` is `None` where the file system did
/// not say of what type the child is.
#[derive(Debug, PartialEq, Eq)]
pub struct ScannedChild {
    pub name: String,
    pub is_dir: Option<bool>,
}

/// What the file system showed at a path.
#[derive(Debug, PartialEq, Eq)]
pub enum DirectoryScan {
    /// Nothing is there.
    Missing,
    /// Something is there, and it could not be opened as a directory.
    Unreadable,
    /// A directory with these children, in the order in which they came.
    Children(Vec<ScannedChild>),
    /// A directory that handed out these children and then failed to hand
    /// out the next: it may hold more.
    CutShort(Vec<ScannedChild>),
}

/// Why a path could not be listed.
#[derive(Clone, Copy, Debug, PartialEq, Eq, Structural)]
pub enum ListError {
    /// The path does not exist.
    NotFound,
    /// The directory could not be read.
    ReadError,
}

/// The path that is scanned for a requested one: the root for the empty path,
/// any other path unchanged.
pub open spec fn resolved(path: Seq<char>) -> Seq<char> {
    if path.len() == 0 {
        SERVER_ROOT@
    } else {
        path
    }
}

/// Whether the scan learned of what type a child is.
pub open spec fn type_known(child: ScannedChild) -> bool {
    child.is_dir is Some
}

/// The entry that shows a child whose type is known.
pub open spec fn entry_of(child: ScannedChild) -> EntryView {
    EntryView { name: child.name@, is_dir: child.is_dir->0 }
}

/// The listing of a directory with these children: one entry for each child
/// whose type is known, in the order of the children.
pub open spec fn entries_of(children: Seq<ScannedChild>) -> Seq<EntryView> {
    children.filter(|child: ScannedChild| type_known(child)).map_values(
        |child: ScannedChild| entry_of(child),
    )
}

/// The listing after one more child: the child's entry is added where its
/// type is known.
proof fn lemma_entries_of_push(children: Seq<ScannedChild>, child: ScannedChild)
    ensures
        entries_of(children.push(child)) == if type_known(child) {
            entries_of(children).push(entry_of(child))
        } else {
            entries_of(children)
        },
{
    reveal(Seq::filter);
    assert(children.push(child).drop_last() =~= children);
}

/// Whether an entry shows one of the children, and one whose type is known.
pub open spec fn shows_known_child(children: Seq<ScannedChild>, entry: EntryView) -> bool {
    exists|i: int|
        0 <= i < children.len() && type_known(#[trigger] children[i]) && entry == entry_of(
            children[i],
        )
}

/// A listing has one entry for each child of known type and no other: it is
/// as long as there are such children, each of them is shown by an entry with
/// its name and its type, and each entry shows one of them.
pub proof fn lemma_listing_shows_known_children(children: Seq<ScannedChild>)
    ensures
        entries_of(children).len() == children.filter(
            |child: ScannedChild| type_known(child),
        ).len(),
        entries_of(children).len() <= children.len(),
        forall|i: int|
            0 <= i < children.len() && type_known(#[trigger] children[i]) ==> entries_of(
                children,
            ).contains(entry_of(children[i])),
        forall|j: int|
            0 <= j < entries_of(children).len() ==> shows_known_child(
                children,
                #[trigger] entries_of(children)[j],
            ),
{
    let known = |child: ScannedChild| type_known(child);
    let kept = children.filter(known);
    children.lemma_filter_len(known);
    assert forall|i: int| 0 <= i < children.len() && type_known(
        #[trigger] children[i],
    ) implies entries_of(children).contains(entry_of(children[i])) by {
        children.lemma_filter_contains(known, i);
        let k = choose|k: int| 0 <= k < kept.len() && kept[k] == children[i];
        assert(entries_of(children)[k] == entry_of(children[i]));
    }
    assert forall|j: int| 0 <= j < entries_of(children).len() implies shows_known_child(
        children,
        #[trigger] entries_of(children)[j],
    ) by {
        children.lemma_filter_pred(known, j);
        children.lemma_filter_contains_rev(known, kept[j]);
    }
}

/// The entries as the sequence of their views.
pub open spec fn entry_views(entries: Seq<DirectoryEntry>) -> Seq<EntryView> {
    entries.map_values(|entry: DirectoryEntry| entry@)
}

/// The children that a scan came upon, where it found a directory that
/// could be opened.
pub open spec fn children_of(scan: DirectoryScan) -> Option<Seq<ScannedChild>> {
    match scan {
        DirectoryScan::Missing => None,
        DirectoryScan::Unreadable => None,
        DirectoryScan::Children(children) => Some(children@),
        DirectoryScan::CutShort(children) => Some(children@),
    }
}

/// What listing a path gives, by what a scan of it found. A scan that was
/// cut short is listed as far as it came: entries may be missing from a
/// listing, and the listing is not failed for them.
pub open spec fn listing_of(scan: DirectoryScan) -> Result<Seq<EntryView>, ListError> {
    match scan {
        DirectoryScan::Missing => Err(ListError::NotFound),
        DirectoryScan::Unreadable => Err(ListError::ReadError),
        DirectoryScan::Children(children) => Ok(entries_of(children@)),
        DirectoryScan::CutShort(children) => Ok(entries_of(children@)),
    }
}

/// The path to scan for a requested path.
pub fn resolve_path(path: &str) -> (target: String)
    ensures
        target@ == resolved(path@),
{
    if path.is_empty() {
        SERVER_ROOT.to_owned()
    } else {
        path.to_owned()
    }
}

/// The entries that show the children of known type.
fn entries_for(children: &Vec<ScannedChild>) -> (entries: Vec<DirectoryEntry>)
    ensures
        entry_views(entries@) == entries_of(children@),
{
    let mut entries: Vec<DirectoryEntry> = Vec::new();
    let mut i: usize = 0;
    while i < children.len()
        invariant
            i <= children@.len(),
            entry_views(entries@) == entries_of(children@.take(i as int)),
        decreases children@.len() - i,
    {
        proof {
            lemma_entries_of_push(children@.take(i as int), children@[i as int]);
            assert(children@.take(i as int).push(children@[i as int]) =~= children@.take(
                i as int + 1,
            ));
        }
        if let Some(is_dir) = children[i].is_dir {
            entries.push(DirectoryEntry { name: children[i].name.clone(), is_dir });
        }
        i = i + 1;
    }
    assert(children@.take(i as int) =~= children@);
    entries
}

/// Lists the directory that was scanned.
pub fn list(scan: &DirectoryScan) -> (result: Result<Vec<DirectoryEntry>, ListError>)
    ensures
        match listing_of(*scan) {
            Ok(expected) => result matches Ok(entries) && entry_views(entries@) == expected,
            Err(error) => result == Err::<Vec<DirectoryEntry>, ListError>(error),
        },
{
    match scan {
        DirectoryScan::Missing => Err(ListError::NotFound),
        DirectoryScan::Unreadable => Err(ListError::ReadError),
        DirectoryScan::Children(children) => Ok(entries_for(children)),
        DirectoryScan::CutShort(children) => Ok(entries_for(children)),
    }
}

} // verus!
