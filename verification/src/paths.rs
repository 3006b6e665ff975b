//! Path logic for locating the helper scripts and the processed-numbers log.
//!
//! A path is modelled as a vector of segments, root first. The surrounding
//! application converts between this form and the platform's path type.

use vstd::prelude::*;

verus! {

/// The view of a segment path: the character sequence of each segment.
pub open spec fn seg_views(p: Seq<String>) -> Seq<Seq<char>> {
    p.map_values(|s: String| s@)
}

/// The fixed relative path of the persistent monitor script.
pub open spec fn spec_monitor_rel() -> Seq<Seq<char>> {
    seq!["python"@, "scripts"@, "keyboard_monitor.py"@]
}

/// The fixed relative path of the processed-numbers log file.
pub open spec fn spec_log_rel() -> Seq<Seq<char>> {
    seq!["logs"@, "processed_numbers.txt"@]
}

/// The workspace root reported at the boundary: the parent directory of the
/// current directory, or the current directory itself when it has no parent.
pub open spec fn spec_root(p: Seq<String>) -> Seq<String> {
    if p.len() == 0 {
        p
    } else {
        p.drop_last()
    }
}

/// Parent directory: every segment but the last; `None` for an empty path.
pub fn parent_of(p: &Vec<String>) -> (r: Option<Vec<String>>)
    ensures
        p@.len() == 0 ==> r is None,
        p@.len() > 0 ==> (r matches Some(q) && q@ == p@.drop_last()),
{
    if p.len() == 0 {
        None
    } else {
        let mut q: Vec<String> = Vec::new();
        let mut i: usize = 0;
        while i < p.len() - 1
            invariant
                i <= p.len() - 1,
                p.len() > 0,
                q@ == p@.subrange(0, i as int),
            decreases p.len() - 1 - i,
        {
            q.push(p[i].clone());
            assert(q@ == p@.subrange(0, i + 1));
            i = i + 1;
        }
        assert(p@.subrange(0, p.len() - 1) == p@.drop_last());
        Some(q)
    }
}

/// The workspace root for boundary reporting: parent of the current
/// directory, or the current directory itself when it has none.
pub fn workspace_root_of(cwd: &Vec<String>) -> (r: Vec<String>)
    ensures
        r@ == spec_root(cwd@),
{
    match parent_of(cwd) {
        Some(q) => q,
        None => {
            let mut c: Vec<String> = Vec::new();
            assert(c@ == cwd@);
            c
        },
    }
}

/// Concatenation of two segment paths.
pub fn join_path(base: &Vec<String>, rel: &Vec<String>) -> (r: Vec<String>)
    ensures
        r@ == base@ + rel@,
{
    let mut r: Vec<String> = Vec::new();
    let mut i: usize = 0;
    while i < base.len()
        invariant
            i <= base.len(),
            r@ == base@.subrange(0, i as int),
        decreases base.len() - i,
    {
        r.push(base[i].clone());
        assert(r@ == base@.subrange(0, i + 1));
        i = i + 1;
    }
    assert(r@ == base@);
    let mut j: usize = 0;
    while j < rel.len()
        invariant
            j <= rel.len(),
            r@ == base@ + rel@.subrange(0, j as int),
        decreases rel.len() - j,
    {
        r.push(rel[j].clone());
        assert(r@ == base@ + rel@.subrange(0, j + 1));
        j = j + 1;
    }
    assert(rel@.subrange(0, rel@.len() as int) == rel@);
    r
}

/// The monitor script's relative path as segments.
pub fn monitor_script_rel() -> (r: Vec<String>)
    ensures
        seg_views(r@) == spec_monitor_rel(),
{
    let mut r: Vec<String> = Vec::new();
    r.push("python".to_owned());
    r.push("scripts".to_owned());
    r.push("keyboard_monitor.py".to_owned());
    assert(seg_views(r@) =~= spec_monitor_rel());
    r
}

/// The relative path of a one-shot script with the given file name.
pub fn script_rel(name: &String) -> (r: Vec<String>)
    ensures
        seg_views(r@) == seq!["python"@, "scripts"@, name@],
{
    let mut r: Vec<String> = Vec::new();
    r.push("python".to_owned());
    r.push("scripts".to_owned());
    r.push(name.clone());
    assert(seg_views(r@) =~= seq!["python"@, "scripts"@, name@]);
    r
}

/// Absolute path of a one-shot script: the workspace root (strict parent of
/// the current directory) joined with `python/scripts/<name>`. `None` when
/// the current directory has no parent, which the caller reports as a
/// workspace-root resolution failure.
pub fn one_shot_script_path(cwd: &Vec<String>, name: &String) -> (r: Option<Vec<String>>)
    ensures
        cwd@.len() == 0 ==> r is None,
        cwd@.len() > 0 ==> (r matches Some(p) && seg_views(p@) == seg_views(cwd@.drop_last())
            + seq!["python"@, "scripts"@, name@]),
{
    match parent_of(cwd) {
        None => None,
        Some(root) => {
            let rel = script_rel(name);
            let p = join_path(&root, &rel);
            assert(seg_views(p@) =~= seg_views(root@) + seg_views(rel@));
            Some(p)
        },
    }
}

/// Absolute path of the monitor script, built the same way.
pub fn monitor_script_path(cwd: &Vec<String>) -> (r: Option<Vec<String>>)
    ensures
        cwd@.len() == 0 ==> r is None,
        cwd@.len() > 0 ==> (r matches Some(p) && seg_views(p@) == seg_views(cwd@.drop_last())
            + spec_monitor_rel()),
{
    match parent_of(cwd) {
        None => None,
        Some(root) => {
            let rel = monitor_script_rel();
            let p = join_path(&root, &rel);
            assert(seg_views(p@) =~= seg_views(root@) + seg_views(rel@));
            Some(p)
        },
    }
}

/// The clear-log plan: the directory that must exist and the file that is
/// truncated to empty, both under the given workspace root.
pub fn clear_log_plan(root: &Vec<String>) -> (r: (Vec<String>, Vec<String>))
    ensures
        seg_views(r.0@) == seg_views(root@) + seq!["logs"@],
        seg_views(r.1@) == seg_views(root@) + spec_log_rel(),
        r.1@.drop_last() == r.0@,
{
    let mut rel_dir: Vec<String> = Vec::new();
    rel_dir.push("logs".to_owned());
    let dir = join_path(root, &rel_dir);
    assert(seg_views(dir@) =~= seg_views(root@) + seq!["logs"@]);
    let mut file = join_path(&dir, &Vec::new());
    assert(file@ == dir@);
    file.push("processed_numbers.txt".to_owned());
    assert(seg_views(file@) =~= seg_views(root@) + spec_log_rel());
    (dir, file)
}

/// Consistency of the two boundary paths: the workspace root reported to the
/// caller, joined with the monitor script's known relative location, is
/// exactly the path the launcher constructs internally, whenever the current
/// directory has a parent.
pub proof fn lemma_root_join_consistency(cwd: Seq<String>)
    requires
        cwd.len() > 0,
    ensures
        seg_views(spec_root(cwd)) + spec_monitor_rel() == seg_views(cwd.drop_last())
            + spec_monitor_rel(),
{
}

} // verus!
