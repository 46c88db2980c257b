use vstd::prelude::*;
use crate::document::File;

verus! {

/// The fewest characters a document must hold to be kept.
pub const MIN_DOC_CHARS: usize = 250;

/// Where the last path component starts: just past the last `/`, or 0.
pub open spec fn name_start(p: Seq<char>) -> nat
    decreases p.len(),
{
    if p.len() == 0 {
        0
    } else if p.last() == '/' {
        p.len()
    } else {
        name_start(p.drop_last())
    }
}

/// The last component of a path.
pub open spec fn file_name(p: Seq<char>) -> Seq<char> {
    p.subrange(name_start(p) as int, p.len() as int)
}

/// `pat` occurs in `s` starting at `i`.
pub open spec fn occurs_at(s: Seq<char>, pat: Seq<char>, i: int) -> bool {
    0 <= i && i + pat.len() <= s.len() && s.subrange(i, i + pat.len()) == pat
}

pub open spec fn occurs_in(s: Seq<char>, pat: Seq<char>) -> bool {
    exists|i: int| occurs_at(s, pat, i)
}

/// The file name has the markup extension: a stem that is not empty, then `.mdx`.
pub open spec fn has_doc_extension(p: Seq<char>) -> bool {
    let n = file_name(p);
    n.len() > 4 && n.subrange(n.len() - 4, n.len() as int) == ".mdx"@
}

/// The file is the excluded index page.
pub open spec fn is_index_file(p: Seq<char>) -> bool {
    file_name(p) == "overview.mdx"@
}

/// A directory is walked unless its path names the snippets directory.
pub open spec fn descends_into(p: Seq<char>) -> bool {
    !occurs_in(p, "_snippets"@)
}

/// A file is a candidate document.
pub open spec fn is_doc_file(p: Seq<char>) -> bool {
    has_doc_extension(p) && !is_index_file(p)
}

/// What the corpus walk does with one directory entry.
#[derive(Debug, Clone, Copy, PartialEq, Eq, Structural)]
pub enum EntryAction {
    Descend,
    Read,
    Skip,
}

pub open spec fn entry_action_spec(p: Seq<char>, is_dir: bool) -> EntryAction {
    if is_dir {
        if descends_into(p) { EntryAction::Descend } else { EntryAction::Skip }
    } else if is_doc_file(p) {
        EntryAction::Read
    } else {
        EntryAction::Skip
    }
}

/// Whether `pat` occurs in `s` at `start`.
fn matches_at(s: &str, start: usize, pat: &str) -> (r: bool)
    ensures
        r == occurs_at(s@, pat@, start as int),
{
    let n = s.unicode_len();
    let m = pat.unicode_len();
    if start > n || m > n - start {
        return false;
    }
    let mut j: usize = 0;
    while j < m
        invariant
            n == s@.len(),
            m == pat@.len(),
            start + m <= n,
            j <= m,
            forall|k: int| 0 <= k < j ==> s@[start + k] == pat@[k],
        decreases m - j,
    {
        if s.get_char(start + j) != pat.get_char(j) {
            assert(s@.subrange(start as int, start + m)[j as int] != pat@[j as int]);
            return false;
        }
        j = j + 1;
    }
    assert(s@.subrange(start as int, start + m) =~= pat@);
    true
}

/// Whether `pat` occurs anywhere in `s`.
fn contains(s: &str, pat: &str) -> (r: bool)
    ensures
        r == occurs_in(s@, pat@),
{
    let n = s.unicode_len();
    let m = pat.unicode_len();
    if m > n {
        assert(forall|i: int| !occurs_at(s@, pat@, i));
        return false;
    }
    let last = n - m;
    let mut i: usize = 0;
    loop
        invariant
            n == s@.len(),
            m == pat@.len(),
            last == n - m,
            i <= last,
            forall|k: int| 0 <= k < i ==> !occurs_at(s@, pat@, k),
        decreases last - i,
    {
        if matches_at(s, i, pat) {
            return true;
        }
        if i == last {
            assert(forall|k: int| !occurs_at(s@, pat@, k));
            return false;
        }
        i = i + 1;
    }
}

proof fn lemma_name_start_bound(p: Seq<char>)
    ensures
        name_start(p) <= p.len(),
    decreases p.len(),
{
    if p.len() > 0 && p.last() != '/' {
        lemma_name_start_bound(p.drop_last());
    }
}

/// Index where the last component of `s` starts.
fn name_start_exec(s: &str) -> (r: usize)
    ensures
        r == name_start(s@),
{
    let n = s.unicode_len();
    let mut i: usize = n;
    assert(s@.subrange(0, n as int) =~= s@);
    while i > 0
        invariant
            n == s@.len(),
            i <= n,
            name_start(s@) == name_start(s@.subrange(0, i as int)),
        decreases i,
    {
        let ghost pre = s@.subrange(0, i as int);
        if s.get_char(i - 1) == '/' {
            assert(pre.last() == '/');
            return i;
        }
        assert(pre.drop_last() =~= s@.subrange(0, i - 1));
        i = i - 1;
    }
    assert(s@.subrange(0, 0).len() == 0);
    0
}

/// The decision for one directory entry of the corpus.
pub fn entry_action(path: &str, is_dir: bool) -> (r: EntryAction)
    ensures
        r == entry_action_spec(path@, is_dir),
{
    if is_dir {
        if contains(path, "_snippets") {
            EntryAction::Skip
        } else {
            EntryAction::Descend
        }
    } else {
        proof {
            reveal_strlit(".mdx");
        }
        let n = path.unicode_len();
        let start = name_start_exec(path);
        proof {
            lemma_name_start_bound(path@);
        }
        let len = n - start;
        let ext = len > 4 && matches_at(path, n - 4, ".mdx");
        let index = len == "overview.mdx".unicode_len() && matches_at(path, start, "overview.mdx");
        proof {
            let nm = file_name(path@);
            assert(nm.len() == len);
            if len > 4 {
                assert(nm.subrange(nm.len() - 4, nm.len() as int) =~= path@.subrange(n - 4, n as int));
            }
            if len == "overview.mdx"@.len() {
                assert(nm =~= path@.subrange(start as int, start + "overview.mdx"@.len()));
            }
        }
        if ext && !index {
            EntryAction::Read
        } else {
            EntryAction::Skip
        }
    }
}

/// Whether a document's contents are long enough to keep.
pub fn is_long_enough(contents: &str) -> (r: bool)
    ensures
        r == (contents@.len() >= MIN_DOC_CHARS),
{
    contents.unicode_len() >= MIN_DOC_CHARS
}

/// Keeps a read file as a document when its contents are long enough.
pub fn accept_document(path: String, contents: String) -> (r: Option<File>)
    ensures
        contents@.len() >= MIN_DOC_CHARS ==> (r matches Some(f) && f.path@ == path@
            && f.file_contents@ == contents@),
        contents@.len() < MIN_DOC_CHARS ==> r is None,
{
    if is_long_enough(contents.as_str()) {
        Some(File::new(path, contents))
    } else {
        None
    }
}

} // verus!
