//! An in-memory filesystem model: directories and files keyed by segment
//! paths. The clear-log transition is stated and verified against it; the
//! surrounding application applies the same plan to the real filesystem.

use crate::paths::{clear_log_plan, seg_views, spec_log_rel};
use vstd::prelude::*;

verus! {

/// A directory/file store. Writes append; the last write to a path wins.
pub struct FsModel {
    pub dirs: Vec<Vec<String>>,
    pub files: Vec<(Vec<String>, String)>,
}

/// The store contains a directory at `key`.
pub open spec fn has_dir(dirs: Seq<Vec<String>>, key: Seq<Seq<char>>) -> bool {
    exists|i: int| 0 <= i < dirs.len() && seg_views(dirs[i]@) == key
}

/// The content of the file at `key`: the last write to it, if any.
pub open spec fn lookup(files: Seq<(Vec<String>, String)>, key: Seq<Seq<char>>) -> Option<
    Seq<char>,
>
    decreases files.len(),
{
    if files.len() == 0 {
        None
    } else if seg_views(files.last().0@) == key {
        Some(files.last().1@)
    } else {
        lookup(files.drop_last(), key)
    }
}

/// Whether two segment paths spell the same path.
pub fn path_eq(a: &Vec<String>, b: &Vec<String>) -> (r: bool)
    ensures
        r == (seg_views(a@) == seg_views(b@)),
{
    if a.len() != b.len() {
        assert(seg_views(a@).len() != seg_views(b@).len());
        return false;
    }
    let mut i: usize = 0;
    while i < a.len()
        invariant
            a@.len() == b@.len(),
            i <= a@.len(),
            forall|j: int| 0 <= j < i ==> seg_views(a@)[j] == seg_views(b@)[j],
        decreases a@.len() - i,
    {
        if !(a[i] == b[i]) {
            assert(seg_views(a@)[i as int] != seg_views(b@)[i as int]);
            return false;
        }
        assert(seg_views(a@)[i as int] == seg_views(b@)[i as int]);
        i = i + 1;
    }
    assert(seg_views(a@) =~= seg_views(b@));
    true
}

impl FsModel {
    /// An empty store: no directories, no files.
    pub fn new() -> (fs: Self)
        ensures
            fs.dirs@ =~= Seq::<Vec<String>>::empty(),
            fs.files@ =~= Seq::<(Vec<String>, String)>::empty(),
    {
        FsModel { dirs: Vec::new(), files: Vec::new() }
    }

    /// Ensures the directory exists, as creating it with all parents would.
    pub fn ensure_dir(&mut self, d: &Vec<String>)
        ensures
            has_dir(final(self).dirs@, seg_views(d@)),
            forall|k: Seq<Seq<char>>| has_dir(old(self).dirs@, k) ==> has_dir(
                final(self).dirs@,
                k,
            ),
            final(self).files@ == old(self).files@,
    {
        let mut i: usize = 0;
        while i < self.dirs.len()
            invariant
                i <= self.dirs@.len(),
            decreases self.dirs@.len() - i,
        {
            if path_eq(&self.dirs[i], d) {
                assert(has_dir(self.dirs@, seg_views(d@)));
                return ;
            }
            i = i + 1;
        }
        let ghost before = self.dirs@;
        let mut copy: Vec<String> = Vec::new();
        let mut j: usize = 0;
        while j < d.len()
            invariant
                j <= d@.len(),
                copy@ == d@.subrange(0, j as int),
            decreases d@.len() - j,
        {
            copy.push(d[j].clone());
            assert(copy@ == d@.subrange(0, j + 1));
            j = j + 1;
        }
        assert(copy@ == d@);
        self.dirs.push(copy);
        assert(seg_views(self.dirs@.last()@) == seg_views(d@));
        assert(has_dir(self.dirs@, seg_views(d@)));
        assert forall|k: Seq<Seq<char>>| has_dir(before, k) implies has_dir(
            self.dirs@,
            k,
        ) by {
            let i = choose|i: int| 0 <= i < before.len() && seg_views(before[i]@) == k;
            assert(self.dirs@[i] == before[i]);
        }
    }

    /// Writes `content` to the file at `p`, creating or truncating it.
    pub fn write_file(&mut self, p: &Vec<String>, content: &String)
        ensures
            lookup(final(self).files@, seg_views(p@)) == Some(content@),
            forall|k: Seq<Seq<char>>|
                k != seg_views(p@) ==> lookup(final(self).files@, k) == lookup(
                    old(self).files@,
                    k,
                ),
            final(self).dirs@ == old(self).dirs@,
    {
        let mut copy: Vec<String> = Vec::new();
        let mut j: usize = 0;
        while j < p.len()
            invariant
                j <= p@.len(),
                copy@ == p@.subrange(0, j as int),
            decreases p@.len() - j,
        {
            copy.push(p[j].clone());
            assert(copy@ == p@.subrange(0, j + 1));
            j = j + 1;
        }
        assert(copy@ == p@);
        self.files.push((copy, content.clone()));
        assert(self.files@.drop_last() == old(self).files@);
    }

    /// The content of the file at `p`, if one was ever written.
    pub fn read_file(&self, p: &Vec<String>) -> (r: Option<String>)
        ensures
            (match lookup(self.files@, seg_views(p@)) {
                None => r is None,
                Some(c) => r matches Some(s) && s@ == c,
            }),
    {
        let mut i: usize = self.files.len();
        assert(self.files@.subrange(0, i as int) =~= self.files@);
        while i > 0
            invariant
                i <= self.files@.len(),
                lookup(self.files@, seg_views(p@)) == lookup(
                    self.files@.subrange(0, i as int),
                    seg_views(p@),
                ),
            decreases i,
        {
            assert(self.files@.subrange(0, i as int).last() == self.files@[i - 1]);
            assert(self.files@.subrange(0, i as int).drop_last() =~= self.files@.subrange(
                0,
                i - 1,
            ));
            if path_eq(&self.files[i - 1].0, p) {
                return Some(self.files[i - 1].1.clone());
            }
            i = i - 1;
        }
        assert(self.files@.subrange(0, 0) =~= Seq::<(Vec<String>, String)>::empty());
        None
    }
}

/// Clears the processed-numbers log under `root`: the logs directory exists
/// afterwards (as do all directories that existed before), the log file's
/// content is empty — created when absent, truncated when it held anything —
/// and no other file changes.
pub fn clear_processed_log(fs: &mut FsModel, root: &Vec<String>)
    ensures
        has_dir(final(fs).dirs@, seg_views(root@) + seq!["logs"@]),
        forall|k: Seq<Seq<char>>| has_dir(old(fs).dirs@, k) ==> has_dir(final(fs).dirs@, k),
        lookup(final(fs).files@, seg_views(root@) + spec_log_rel()) == Some(
            Seq::<char>::empty(),
        ),
        forall|k: Seq<Seq<char>>|
            k != seg_views(root@) + spec_log_rel() ==> lookup(final(fs).files@, k) == lookup(
                old(fs).files@,
                k,
            ),
{
    let (dir, file) = clear_log_plan(root);
    fs.ensure_dir(&dir);
    let empty = String::new();
    fs.write_file(&file, &empty);
}

} // verus!
