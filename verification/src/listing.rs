//! Directory listings as the library reads them.

use vstd::prelude::*;

verus! {

/// One entry of a directory: its file name and what kind of file it is.
/// `is_dir` does not follow a symbolic link; `is_file` does.
#[derive(Debug, PartialEq, Eq)]
pub struct DirEntry {
    pub name: String,
    pub is_dir: bool,
    pub is_file: bool,
}

/// `DirEntry` with its name as characters.
pub struct DirEntryView {
    pub name: Seq<char>,
    pub is_dir: bool,
    pub is_file: bool,
}

impl View for DirEntry {
    type V = DirEntryView;

    open spec fn view(&self) -> DirEntryView {
        DirEntryView { name: self.name@, is_dir: self.is_dir, is_file: self.is_file }
    }
}

/// The views of the entries of a listing, in order.
pub open spec fn listing_view(entries: Seq<DirEntry>) -> Seq<DirEntryView> {
    entries.map_values(|e: DirEntry| e@)
}

} // verus!
