use vstd::prelude::*;
use crate::document::File;
use crate::filter::{accept_document, entry_action, entry_action_spec, EntryAction, MIN_DOC_CHARS};

verus! {

/// The state of a depth-first walk over a corpus directory tree: the
/// directories still to list, and the documents kept so far. The caller lists
/// each directory it is handed, reports every entry, and reads the files that
/// the walk asks for.
pub struct CorpusWalk {
    pub pending: Vec<String>,
    pub found: Vec<File>,
}

impl CorpusWalk {
    /// A walk that starts at `root`.
    pub fn new(root: String) -> (r: CorpusWalk)
        ensures
            r.pending@ == seq![root],
            r.found@.len() == 0,
    {
        let mut pending: Vec<String> = Vec::new();
        pending.push(root);
        CorpusWalk { pending, found: Vec::new() }
    }

    /// The next directory to list, the one reported most recently; `None`
    /// once the walk is over.
    pub fn next_dir(&mut self) -> (r: Option<String>)
        ensures
            old(self).pending@.len() == 0 ==> r is None && final(self).pending@ == old(self).pending@,
            old(self).pending@.len() > 0 ==> r == Some(old(self).pending@.last())
                && final(self).pending@ == old(self).pending@.drop_last(),
            final(self).found@ == old(self).found@,
    {
        self.pending.pop()
    }

    /// Takes note of one directory entry: a directory to walk is queued. The
    /// caller reads the file when the answer is `Read`.
    pub fn visit(&mut self, path: String, is_dir: bool) -> (r: EntryAction)
        ensures
            r == entry_action_spec(path@, is_dir),
            r == EntryAction::Descend ==> final(self).pending@ == old(self).pending@.push(path),
            r != EntryAction::Descend ==> final(self).pending@ == old(self).pending@,
            final(self).found@ == old(self).found@,
    {
        let action = entry_action(path.as_str(), is_dir);
        if action == EntryAction::Descend {
            self.pending.push(path);
        }
        action
    }

    /// Offers the contents of a file that was read; it is kept as a document
    /// when long enough.
    pub fn offer(&mut self, path: String, contents: String)
        ensures
            final(self).pending@ == old(self).pending@,
            contents@.len() < MIN_DOC_CHARS ==> final(self).found@ == old(self).found@,
            contents@.len() >= MIN_DOC_CHARS ==> {
                &&& final(self).found@.len() == old(self).found@.len() + 1
                &&& final(self).found@.drop_last() == old(self).found@
                &&& final(self).found@.last().path@ == path@
                &&& final(self).found@.last().file_contents@ == contents@
            },
    {
        match accept_document(path, contents) {
            Some(f) => {
                self.found.push(f);
                proof {
                    assert(self.found@.drop_last() =~= old(self).found@);
                }
            },
            None => {},
        }
    }

    /// The documents kept, in the order they were found.
    pub fn into_documents(self) -> (r: Vec<File>)
        ensures
            r@ == self.found@,
    {
        self.found
    }
}

} // verus!
