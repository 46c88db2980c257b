use vstd::prelude::*;

verus! {

/// The Diataxis category of a documentation page.
#[derive(Debug, Clone, Copy, PartialEq, Eq, Structural)]
pub enum DocumentType {
    Tutorial,
    HowTo,
    Explanation,
    Reference,
}

/// The name of a category, as written into prompts.
pub open spec fn category_name(t: DocumentType) -> Seq<char> {
    match t {
        DocumentType::Tutorial => "tutorial"@,
        DocumentType::HowTo => "how-to"@,
        DocumentType::Explanation => "explanation"@,
        DocumentType::Reference => "reference"@,
    }
}

impl DocumentType {
    pub fn as_str(&self) -> (r: &'static str)
        ensures
            r@ == category_name(*self),
    {
        match self {
            DocumentType::Tutorial => "tutorial",
            DocumentType::HowTo => "how-to",
            DocumentType::Explanation => "explanation",
            DocumentType::Reference => "reference",
        }
    }
}

/// Reads a category from its name; `None` for any other text.
pub fn parse_category(s: &String) -> (r: Option<DocumentType>)
    ensures
        r matches Some(t) ==> category_name(t) == s@,
        r is None ==> forall|t: DocumentType| category_name(t) != s@,
{
    if *s == String::from_str("tutorial") {
        Some(DocumentType::Tutorial)
    } else if *s == String::from_str("how-to") {
        Some(DocumentType::HowTo)
    } else if *s == String::from_str("explanation") {
        Some(DocumentType::Explanation)
    } else if *s == String::from_str("reference") {
        Some(DocumentType::Reference)
    } else {
        proof {
            assert forall|t: DocumentType| category_name(t) != s@ by {
                match t {
                    DocumentType::Tutorial => {},
                    DocumentType::HowTo => {},
                    DocumentType::Explanation => {},
                    DocumentType::Reference => {},
                }
            }
        }
        None
    }
}

/// How pressing an issue is.
#[derive(Debug, Clone, Copy, PartialEq, Eq, Structural)]
pub enum Priority {
    Low,
    Medium,
    High,
    Urgent,
}

/// The name of a priority level.
pub open spec fn priority_name(p: Priority) -> Seq<char> {
    match p {
        Priority::Low => "low"@,
        Priority::Medium => "medium"@,
        Priority::High => "high"@,
        Priority::Urgent => "urgent"@,
    }
}

impl Priority {
    pub fn as_str(&self) -> (r: &'static str)
        ensures
            r@ == priority_name(*self),
    {
        match self {
            Priority::Low => "low",
            Priority::Medium => "medium",
            Priority::High => "high",
            Priority::Urgent => "urgent",
        }
    }
}

/// Reads a priority from its name; `None` for any other text.
pub fn parse_priority(s: &String) -> (r: Option<Priority>)
    ensures
        r matches Some(p) ==> priority_name(p) == s@,
        r is None ==> forall|p: Priority| priority_name(p) != s@,
{
    if *s == String::from_str("low") {
        Some(Priority::Low)
    } else if *s == String::from_str("medium") {
        Some(Priority::Medium)
    } else if *s == String::from_str("high") {
        Some(Priority::High)
    } else if *s == String::from_str("urgent") {
        Some(Priority::Urgent)
    } else {
        proof {
            assert forall|p: Priority| priority_name(p) != s@ by {
                match p {
                    Priority::Low => {},
                    Priority::Medium => {},
                    Priority::High => {},
                    Priority::Urgent => {},
                }
            }
        }
        None
    }
}

/// One problem found in a document.
#[derive(Debug)]
pub struct Issue {
    pub priority: Priority,
    pub content: String,
}

/// What the classification stage says of a document.
#[derive(Debug)]
pub struct ClassificationResult {
    pub data_type: DocumentType,
    pub filepath: String,
}

/// The critique of one document: its category, its path and the issues found.
#[derive(Debug)]
pub struct CritiqueReport {
    pub data_type: String,
    pub filepath: String,
    pub issues: Vec<Issue>,
}

/// Why one structured extraction failed.
#[derive(Debug)]
pub enum ExtractionError {
    /// The service could not be reached or answered with a failure.
    Transport(String),
    /// The reply did not parse into the requested record.
    SchemaMismatch(String),
}

/// Why the pipeline failed for one document.
#[derive(Debug)]
pub enum PipelineError {
    /// The classification branch failed; the item is not critiqued.
    Classification(ExtractionError),
    /// The critique stage failed.
    Critique(ExtractionError),
}

/// The result of running the pipeline on one document.
pub type Outcome = Result<CritiqueReport, PipelineError>;

/// Whether some category has this name.
pub open spec fn names_category(s: Seq<char>) -> bool {
    exists|t: DocumentType| category_name(t) == s
}

/// Whether some priority has this name.
pub open spec fn names_priority(s: Seq<char>) -> bool {
    exists|p: Priority| priority_name(p) == s
}

/// Checks a classifier's reply: the category must be one of the known names.
pub fn decode_classification(data_type: String, filepath: String) -> (r: Result<
    ClassificationResult,
    ExtractionError,
>)
    ensures
        names_category(data_type@) <==> r is Ok,
        r matches Ok(c) ==> (category_name(c.data_type) == data_type@ && c.filepath@ == filepath@),
        r matches Err(e) ==> (e matches ExtractionError::SchemaMismatch(m) && m@ == data_type@),
{
    match parse_category(&data_type) {
        Some(t) => Ok(ClassificationResult { data_type: t, filepath }),
        None => Err(ExtractionError::SchemaMismatch(data_type)),
    }
}

/// Checks an advisor's reply: every issue must carry a known priority. The
/// issues keep their order; the first unknown priority is reported.
pub fn decode_report(data_type: String, filepath: String, issues: &Vec<(String, String)>) -> (r:
    Result<CritiqueReport, ExtractionError>)
    ensures
        (forall|i: int| 0 <= i < issues.len() ==> names_priority(#[trigger] issues[i].0@)) <==> r is Ok,
        r matches Ok(rep) ==> {
            &&& rep.data_type@ == data_type@
            &&& rep.filepath@ == filepath@
            &&& rep.issues.len() == issues.len()
            &&& forall|i: int|
                0 <= i < issues.len() ==> priority_name(#[trigger] rep.issues[i].priority)
                    == issues[i].0@ && rep.issues[i].content@ == issues[i].1@
        },
        r matches Err(e) ==> (e matches ExtractionError::SchemaMismatch(m) && exists|i: int|
            0 <= i < issues.len() && m@ == issues[i].0@ && !names_priority(m@) && forall|j: int|
                0 <= j < i ==> names_priority(#[trigger] issues[j].0@)),
{
    let mut out: Vec<Issue> = Vec::new();
    let mut i: usize = 0;
    while i < issues.len()
        invariant
            i <= issues.len(),
            out.len() == i,
            forall|k: int| 0 <= k < i ==> names_priority(#[trigger] issues[k].0@),
            forall|k: int|
                0 <= k < i ==> priority_name(#[trigger] out[k].priority) == issues[k].0@
                    && out[k].content@ == issues[k].1@,
        decreases issues.len() - i,
    {
        let name = &issues[i].0;
        match parse_priority(name) {
            Some(p) => {
                out.push(Issue { priority: p, content: issues[i].1.clone() });
            },
            None => {
                assert(!names_priority(issues[i as int].0@));
                return Err(ExtractionError::SchemaMismatch(name.clone()));
            },
        }
        i = i + 1;
    }
    Ok(CritiqueReport { data_type, filepath, issues: out })
}

} // verus!
