//! The path of the last binary found, kept for the next resolution.
use vstd::prelude::*;

verus! {

/// Holds at most one path to the server binary. Whether the file is still there
/// is checked by the caller when the path is used, never here.
#[derive(Debug)]
pub struct BinaryCache {
    path: Option<String>,
}

impl BinaryCache {
    /// The path held, if any.
    pub closed spec fn stored(&self) -> Option<String> {
        self.path
    }

    /// An empty cache.
    pub fn new() -> (r: BinaryCache)
        ensures
            r.stored() is None,
    {
        BinaryCache { path: None }
    }

    /// Replace what is held by `path`.
    pub fn remember(&mut self, path: String)
        ensures
            final(self).stored() == Some(path),
    {
        self.path = Some(path);
    }

    /// A copy of the path held, to be checked before it is used.
    pub fn candidate(&self) -> (r: Option<String>)
        ensures
            r == self.stored(),
    {
        match &self.path {
            Some(p) => Some(p.clone()),
            None => None,
        }
    }

    /// The path held, where `live` says that it names an existing regular file;
    /// otherwise nothing. What is held is kept either way.
    pub fn recall(&self, live: bool) -> (r: Option<String>)
        ensures
            r == (if live { self.stored() } else { None }),
    {
        if live {
            self.candidate()
        } else {
            None
        }
    }
}

} // verus!
