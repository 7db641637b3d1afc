//! Places on disk, kept as a root that the caller names and the steps below it.
//!
//! The library composes places and reasons about them; only the caller turns one into a path of
//! the platform, so nothing here depends on a path separator.

use vstd::prelude::*;
use vstd::string::*;
use crate::text::{copy_texts, join, lemma_texts_push, spec_join, spec_texts};

verus! {

/// A place: a root directory and the names that lead down from it.
#[derive(Debug, Clone, PartialEq, Eq)]
pub struct Location {
    pub root: String,
    pub parts: Vec<String>,
}

impl View for Location {
    type V = Seq<Seq<char>>;

    /// The root, followed by each step below it.
    open spec fn view(&self) -> Seq<Seq<char>> {
        seq![self.root@] + spec_texts(self.parts@)
    }
}

impl Location {
    /// The place `root` itself.
    pub fn new(root: &str) -> (r: Location)
        ensures
            r@ == seq![root@],
    {
        let r = Location { root: root.to_owned(), parts: Vec::new() };
        assert(r@ =~= seq![root@]);
        r
    }

    /// The entry `name` inside this place.
    pub fn join(&self, name: &str) -> (r: Location)
        ensures
            r@ == self@.push(name@),
    {
        let mut parts = copy_texts(&self.parts);
        let last = name.to_owned();
        proof {
            lemma_texts_push(parts@, last);
        }
        parts.push(last);
        let r = Location { root: self.root.clone(), parts };
        assert(r@ =~= self@.push(name@));
        r
    }

    /// A copy of this place.
    pub fn duplicate(&self) -> (r: Location)
        ensures
            r@ == self@,
    {
        Location { root: self.root.clone(), parts: copy_texts(&self.parts) }
    }

    /// The place written for a reader, with `/` between its steps. This is text for messages,
    /// not a path to open.
    pub fn display(&self) -> (r: String)
        ensures
            r@ == spec_join(self@, "/"@),
    {
        let mut all: Vec<String> = Vec::new();
        all.push(self.root.clone());
        let mut i: usize = 0;
        while i < self.parts.len()
            invariant
                i <= self.parts.len(),
                all@ == seq![self.root] + self.parts@.subrange(0, i as int),
            decreases self.parts.len() - i,
        {
            all.push(self.parts[i].clone());
            assert(all@ =~= seq![self.root] + self.parts@.subrange(0, i + 1));
            i = i + 1;
        }
        assert(self.parts@.subrange(0, self.parts@.len() as int) =~= self.parts@);
        assert(spec_texts(all@) =~= self@);
        join(&all, "/")
    }
}

} // verus!
