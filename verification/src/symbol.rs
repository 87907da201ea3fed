//! Names as paths through nested modules.

use crate::text::copy_strings;
use vstd::prelude::*;

verus! {

/// The path of a name through nested modules, segment by segment.
#[derive(Debug, PartialEq, Eq, Hash)]
pub struct SymbolPath {
    pub segments: Vec<String>,
}

impl DeepView for SymbolPath {
    type V = Seq<Seq<char>>;

    open spec fn deep_view(&self) -> Seq<Seq<char>> {
        self.segments.deep_view()
    }
}

impl Clone for SymbolPath {
    fn clone(&self) -> (r: Self)
        ensures
            r.deep_view() == self.deep_view(),
    {
        SymbolPath { segments: copy_strings(&self.segments) }
    }
}

impl Default for SymbolPath {
    fn default() -> (r: Self)
        ensures
            r.deep_view() == Seq::<Seq<char>>::empty(),
    {
        Self::new()
    }
}

impl SymbolPath {
    /// The empty path.
    pub fn new() -> (r: SymbolPath)
        ensures
            r.deep_view() == Seq::<Seq<char>>::empty(),
    {
        let r = SymbolPath { segments: Vec::new() };
        assert(r.deep_view() =~= Seq::<Seq<char>>::empty());
        r
    }
}

} // verus!
