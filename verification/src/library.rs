//! What a successful probe reports of an installed library.

use vstd::prelude::*;

verus! {

/// A `LibraryDescriptor` as sequences of characters.
pub struct LibraryView {
    pub include_paths: Seq<Seq<char>>,
    pub link_paths: Seq<Seq<char>>,
    pub statik: bool,
}

/// Include and link directories of an installed library, in the order in
/// which the probe reported them, and the linkage that was asked for.
#[derive(Debug)]
pub struct LibraryDescriptor {
    pub include_paths: Vec<String>,
    pub link_paths: Vec<String>,
    pub statik: bool,
}

impl View for LibraryDescriptor {
    type V = LibraryView;

    open spec fn view(&self) -> LibraryView {
        LibraryView {
            include_paths: self.include_paths.deep_view(),
            link_paths: self.link_paths.deep_view(),
            statik: self.statik,
        }
    }
}

/// The views of a list of descriptors, in order.
pub open spec fn library_views(libs: Seq<LibraryDescriptor>) -> Seq<LibraryView> {
    Seq::new(libs.len(), |i: int| libs[i]@)
}

} // verus!
