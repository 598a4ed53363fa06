//! The resolution context: where each artifact lives, and how paths are
//! written.
use vstd::prelude::*;
use crate::text::{join, join_spec, strings_view};

verus! {

/// The separator written between path components.
#[derive(Debug, Clone, Copy, PartialEq, Eq, Structural)]
pub enum PathSeparator {
    Unix,
    Windows,
}

/// The text of a separator.
pub open spec fn separator_text(s: PathSeparator) -> Seq<char> {
    match s {
        PathSeparator::Unix => seq!['/'],
        PathSeparator::Windows => seq!['\\'],
    }
}

impl PathSeparator {
    /// The text of this separator: `/` or `\`.
    pub fn as_str(&self) -> (r: &'static str)
        ensures
            r@ == separator_text(*self),
    {
        match self {
            PathSeparator::Unix => {
                proof {
                    reveal_strlit("/");
                }
                "/"
            },
            PathSeparator::Windows => {
                proof {
                    reveal_strlit("\\");
                }
                "\\"
            },
        }
    }
}

/// The location of one artifact, as path components below the execution
/// root.
#[derive(Debug)]
pub struct PathEntry {
    pub artifact: u64,
    pub components: Vec<String>,
}

/// A read-only mapping from artifact identities to paths, with the path
/// separator to render them with.
#[derive(Debug)]
pub struct ResolutionContext {
    pub entries: Vec<PathEntry>,
    pub separator: PathSeparator,
}

/// The components recorded for `id` by the first entry that names it.
pub open spec fn lookup_spec(entries: Seq<PathEntry>, id: u64) -> Option<Seq<Seq<char>>>
    decreases entries.len(),
{
    if entries.len() == 0 {
        None
    } else if entries[0].artifact == id {
        Some(strings_view(entries[0].components@))
    } else {
        lookup_spec(entries.skip(1), id)
    }
}

impl ResolutionContext {
    /// The path of artifact `id`: its components joined by the separator, or
    /// `None` when no entry names it.
    pub open spec fn path_for_spec(&self, id: u64) -> Option<Seq<char>> {
        match lookup_spec(self.entries@, id) {
            Some(c) => Some(join_spec(c, separator_text(self.separator))),
            None => None,
        }
    }

    /// Translates artifact `id` into the path to emit for it.
    pub fn path_for(&self, id: u64) -> (r: Option<String>)
        ensures
            match r {
                Some(p) => self.path_for_spec(id) == Some(p@),
                None => self.path_for_spec(id) is None,
            },
    {
        let mut i: usize = 0;
        proof {
            assert(self.entries@.skip(0) =~= self.entries@);
        }
        while i < self.entries.len()
            invariant
                i <= self.entries.len(),
                lookup_spec(self.entries@, id) == lookup_spec(self.entries@.skip(i as int), id),
            decreases self.entries.len() - i,
        {
            proof {
                assert(self.entries@.skip(i as int)[0] == self.entries@[i as int]);
                assert(self.entries@.skip(i as int).skip(1) =~= self.entries@.skip(i + 1));
            }
            if self.entries[i].artifact == id {
                return Some(join(&self.entries[i].components, self.separator.as_str()));
            }
            i += 1;
        }
        None
    }
}

} // verus!
