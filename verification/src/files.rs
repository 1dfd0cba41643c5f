//! The files available for splicing.
//!
//! The library itself never touches a disk: whoever drives it reads the
//! files named by inclusion calls and hands their raw contents over in a
//! `FileMap`, keyed by the path exactly as the invocation wrote it.

use vstd::prelude::*;

verus! {

/// Paths and their file contents, in the order they were added; a path
/// asked for twice answers with its first entry.
pub struct FileMap {
    pub files: Vec<(String, String)>,
}

impl View for FileMap {
    type V = Seq<(Seq<char>, Seq<char>)>;

    open spec fn view(&self) -> Seq<(Seq<char>, Seq<char>)> {
        Seq::new(self.files@.len(), |i: int| (self.files@[i].0@, self.files@[i].1@))
    }
}

/// Contents filed under the first entry for `p`, if any.
pub open spec fn file_lookup(m: Seq<(Seq<char>, Seq<char>)>, p: Seq<char>) -> Option<Seq<char>>
    decreases m.len(),
{
    if m.len() == 0 {
        Option::None
    } else if m[0].0 == p {
        Option::Some(m[0].1)
    } else {
        file_lookup(m.subrange(1, m.len() as int), p)
    }
}

impl FileMap {
    /// An empty file map.
    pub fn new() -> (r: FileMap)
        ensures
            r@ == Seq::<(Seq<char>, Seq<char>)>::empty(),
    {
        let r = FileMap { files: Vec::new() };
        proof {
            assert(r@ =~= Seq::<(Seq<char>, Seq<char>)>::empty());
        }
        r
    }

    /// Files `content` under `path`, behind every earlier entry.
    pub fn insert(&mut self, path: String, content: String)
        ensures
            final(self)@ == old(self)@.push((path@, content@)),
    {
        let ghost p = path@;
        let ghost c = content@;
        self.files.push((path, content));
        proof {
            assert(self@ =~= old(self)@.push((p, c)));
        }
    }

    /// Looks the contents of `p` up.
    pub fn lookup(&self, p: &String) -> (r: Option<String>)
        ensures
            r.deep_view() == file_lookup(self@, p@),
    {
        proof {
            assert(self@.skip(0) =~= self@);
        }
        self.lookup_from(p, 0)
    }

    /// Looks `p` up among the entries from position `i` on.
    fn lookup_from(&self, p: &String, i: usize) -> (r: Option<String>)
        requires
            i <= self.files@.len(),
        ensures
            r.deep_view() == file_lookup(self@.skip(i as int), p@),
        decreases self.files@.len() - i,
    {
        if i == self.files.len() {
            proof {
                assert(self@.skip(i as int) =~= Seq::<(Seq<char>, Seq<char>)>::empty());
            }
            Option::None
        } else {
            proof {
                assert(self@.skip(i as int)[0] == self@[i as int]);
                assert(self@.skip(i as int).subrange(1, self@.skip(i as int).len() as int)
                    =~= self@.skip(i as int + 1));
            }
            if self.files[i].0 == *p {
                Option::Some(self.files[i].1.clone())
            } else {
                self.lookup_from(p, i + 1)
            }
        }
    }
}

} // verus!
