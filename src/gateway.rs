use vstd::prelude::*;
use crate::types::texts;

verus! {

/// The repository gateway's configuration: the root of the working tree.
pub struct GitVcs {
    root: String,
}

impl GitVcs {
    pub closed spec fn root_text(&self) -> Seq<char> {
        self.root@
    }

    pub fn new(root: String) -> (r: GitVcs)
        ensures
            r.root_text() == root@,
    {
        GitVcs { root }
    }

    pub fn root(&self) -> (r: &String)
        ensures
            r@ == self.root_text(),
    {
        &self.root
    }
}

/// Whether a path relative to the working tree, given by its components,
/// belongs in a repository snapshot: everything but what lies under `.git`
/// or `target`.
pub open spec fn in_snapshot(components: Seq<Seq<char>>) -> bool {
    !(components.len() > 0 && (components[0] == ".git"@ || components[0] == "target"@))
}

pub fn is_snapshot_path(components: &Vec<String>) -> (r: bool)
    ensures
        r == in_snapshot(texts(components@)),
{
    if components.len() == 0 {
        return true;
    }
    let git = String::from_str(".git");
    let target = String::from_str("target");
    let first = &components[0];
    let excluded = *first == git || *first == target;
    assert(texts(components@)[0] == first@);
    !excluded
}

/// The three verification commands, each a program followed by its
/// arguments; an empty command always passes.
pub struct ProcessRunner {
    pub fmt_cmd: Vec<String>,
    pub check_cmd: Vec<String>,
    pub test_cmd: Vec<String>,
}

/// The three verification categories, run in this order.
#[derive(Debug, Clone, Copy, PartialEq, Eq, Structural)]
pub enum CheckKind {
    Format,
    Static,
    Test,
}

impl ProcessRunner {
    pub fn new(fmt_cmd: Vec<String>, check_cmd: Vec<String>, test_cmd: Vec<String>) -> (r: ProcessRunner)
        ensures
            r.fmt_cmd == fmt_cmd,
            r.check_cmd == check_cmd,
            r.test_cmd == test_cmd,
    {
        ProcessRunner { fmt_cmd, check_cmd, test_cmd }
    }

    pub open spec fn command_spec(&self, kind: CheckKind) -> Vec<String> {
        match kind {
            CheckKind::Format => self.fmt_cmd,
            CheckKind::Static => self.check_cmd,
            CheckKind::Test => self.test_cmd,
        }
    }

    pub fn command(&self, kind: CheckKind) -> (r: &Vec<String>)
        ensures
            *r == self.command_spec(kind),
    {
        match kind {
            CheckKind::Format => &self.fmt_cmd,
            CheckKind::Static => &self.check_cmd,
            CheckKind::Test => &self.test_cmd,
        }
    }
}

/// Splits a command into its program and its arguments; an empty command
/// has neither, and is not run.
pub fn split_command(parts: &Vec<String>) -> (r: Option<(String, Vec<String>)>)
    ensures
        parts@.len() == 0 <==> r is None,
        r matches Some((program, args)) ==> program@ == parts@[0]@
            && texts(args@) == texts(parts@).drop_first(),
{
    if parts.len() == 0 {
        return None;
    }
    let program = parts[0].clone();
    let mut args: Vec<String> = Vec::new();
    let mut i: usize = 1;
    while i < parts.len()
        invariant
            1 <= i <= parts@.len(),
            args@.len() == i - 1,
            forall|j: int| 0 <= j < i - 1 ==> #[trigger] args@[j]@ == parts@[j + 1]@,
        decreases parts@.len() - i,
    {
        args.push(parts[i].clone());
        i += 1;
    }
    assert(texts(args@) =~= texts(parts@).drop_first());
    Some((program, args))
}

/// Whether `a` comes no later than `b` in the order of `String`: code point
/// by code point, a proper prefix first.
pub open spec fn text_le(a: Seq<char>, b: Seq<char>) -> bool
    decreases a.len(),
{
    if a.len() == 0 {
        true
    } else if b.len() == 0 {
        false
    } else if a[0] != b[0] {
        (a[0] as u32) < (b[0] as u32)
    } else {
        text_le(a.drop_first(), b.drop_first())
    }
}

pub open spec fn sorted_texts(s: Seq<Seq<char>>) -> bool {
    forall|i: int, j: int| 0 <= i < j < s.len() ==> text_le(#[trigger] s[i], #[trigger] s[j])
}

/// Relies on `slice::sort` over `String`, whose order compares the UTF-8
/// bytes, which is the order of code points: the same strings, ascending.
#[verifier::external_body]
fn sort_texts(v: &mut Vec<String>)
    ensures
        texts(final(v)@).to_multiset() == texts(old(v)@).to_multiset(),
        sorted_texts(texts(final(v)@)),
{
    v.sort();
}

/// A file found in the working tree: its path relative to the root, and the
/// components of that path.
pub struct TreeEntry {
    pub path: String,
    pub components: Vec<String>,
}

/// The paths of the entries that belong in a snapshot, in the order found.
pub open spec fn kept_paths(entries: Seq<TreeEntry>) -> Seq<Seq<char>>
    decreases entries.len(),
{
    if entries.len() == 0 {
        Seq::empty()
    } else {
        let rest = kept_paths(entries.drop_last());
        if in_snapshot(texts(entries.last().components@)) {
            rest.push(entries.last().path@)
        } else {
            rest
        }
    }
}

/// The file list of a repository snapshot: the entries outside `.git` and
/// `target`, sorted.
pub fn snapshot_paths(entries: &Vec<TreeEntry>) -> (r: Vec<String>)
    ensures
        texts(r@).to_multiset() == kept_paths(entries@).to_multiset(),
        sorted_texts(texts(r@)),
{
    let mut files: Vec<String> = Vec::new();
    let mut i: usize = 0;
    while i < entries.len()
        invariant
            i <= entries@.len(),
            texts(files@) == kept_paths(entries@.subrange(0, i as int)),
        decreases entries@.len() - i,
    {
        let e = &entries[i];
        assert(entries@.subrange(0, i + 1).drop_last() =~= entries@.subrange(0, i as int));
        if is_snapshot_path(&e.components) {
            files.push(e.path.clone());
            assert(texts(files@) =~= kept_paths(entries@.subrange(0, i as int)).push(e.path@));
        }
        i += 1;
    }
    assert(entries@.subrange(0, entries@.len() as int) =~= entries@);
    sort_texts(&mut files);
    files
}

} // verus!
