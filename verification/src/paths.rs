//! Paths, held as the pushes that build them.

use crate::text::{lemma_views_push, views};
use vstd::prelude::*;

verus! {

/// A path of the file system. The first part is where the path starts; each
/// later part is pushed onto what stands before it, by the rules of the
/// platform's paths. The library never reads a part: it only says which parts
/// a path is built from.
#[derive(Debug, PartialEq, Eq)]
pub struct FsPath {
    pub parts: Vec<String>,
}

impl View for FsPath {
    type V = Seq<Seq<char>>;

    open spec fn view(&self) -> Seq<Seq<char>> {
        views(self.parts@)
    }
}

impl Clone for FsPath {
    fn clone(&self) -> (copy: Self)
        ensures
            copy@ == self@,
    {
        let mut parts: Vec<String> = Vec::new();
        let mut i: usize = 0;
        while i < self.parts.len()
            invariant
                i <= self.parts.len(),
                parts.len() == i,
                forall|j: int| 0 <= j < i ==> parts@[j]@ == self.parts@[j]@,
            decreases self.parts.len() - i,
        {
            parts.push(self.parts[i].clone());
            i += 1;
        }
        let copy = FsPath { parts };
        assert(copy@ =~= self@);
        copy
    }
}

/// The view of a path that may be absent.
pub open spec fn path_option(path: Option<FsPath>) -> Option<Seq<Seq<char>>> {
    match path {
        Some(p) => Some(p@),
        None => None,
    }
}

/// What the host found at a path.
#[derive(Clone, Copy, Debug, PartialEq, Eq, Structural)]
pub struct PathStatus {
    /// Something is there, whatever it is.
    pub exists: bool,
    pub is_directory: bool,
    pub is_file: bool,
    /// The entry itself is a symbolic link, wherever it leads.
    pub is_symlink: bool,
}

impl FsPath {
    /// The path that starts at `base`.
    pub fn new(base: &str) -> (path: FsPath)
        ensures
            path@ == seq![base@],
    {
        let mut parts: Vec<String> = Vec::new();
        parts.push(base.to_owned());
        let path = FsPath { parts };
        assert(path@ =~= seq![base@]);
        path
    }

    /// Pushes `part` onto this path.
    pub fn push(&mut self, part: &str)
        ensures
            final(self)@ == old(self)@.push(part@),
    {
        let owned = part.to_owned();
        proof {
            lemma_views_push(self.parts@, owned);
        }
        self.parts.push(owned);
    }

    /// This path with `part` pushed onto it.
    pub fn join(&self, part: &str) -> (path: FsPath)
        ensures
            path@ == self@.push(part@),
    {
        let mut path = self.clone();
        path.push(part);
        path
    }
}

} // verus!
