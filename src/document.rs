use vstd::prelude::*;

verus! {

/// The text of a document as handed to the classifier:
/// `path: <path>` and `file_contents: <contents>` on two lines.
pub open spec fn rendered(path: Seq<char>, contents: Seq<char>) -> Seq<char> {
    "path: "@ + path + "\nfile_contents: "@ + contents
}

/// A fetched documentation file: where it was found and what it holds.
#[derive(Debug, Clone)]
pub struct File {
    pub path: String,
    pub file_contents: String,
}

impl File {
    pub fn new(path: String, file_contents: String) -> (r: File)
        ensures
            r.path@ == path@,
            r.file_contents@ == file_contents@,
    {
        File { path, file_contents }
    }

    /// The document as one text, path first.
    pub fn to_string(&self) -> (r: String)
        ensures
            r@ == rendered(self.path@, self.file_contents@),
    {
        let mut s = String::from_str("path: ");
        s.append(self.path.as_str());
        s.append("\nfile_contents: ");
        s.append(self.file_contents.as_str());
        s
    }
}

} // verus!
