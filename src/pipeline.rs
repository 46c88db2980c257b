use vstd::prelude::*;
use crate::document::{File, rendered};
use crate::operator::{chain, parallel, passthrough};
use crate::report::{
    category_name, ClassificationResult, CritiqueReport, ExtractionError, Outcome, PipelineError,
};

verus! {

/// The prompt handed to the advisor: the inferred category and path, then the
/// document text, each on a line of its own indented by sixteen spaces, with a
/// last indented line after the text.
pub open spec fn merged_prompt(query: Seq<char>, c: ClassificationResult) -> Seq<char> {
    "\n                Document type: "@ + category_name(c.data_type) + "\n                Filepath: "@
        + c.filepath@ + "\n                Data: "@ + query + "\n                "@
}

/// The outcome of an item once the critique stage has answered.
pub open spec fn critique_outcome(a: Result<CritiqueReport, ExtractionError>) -> Outcome {
    match a {
        Ok(rep) => Ok(rep),
        Err(e) => Err(PipelineError::Critique(e)),
    }
}

/// The result of the merge stage, given the two branches of the fan-out.
pub open spec fn merge_result(
    kept: Result<String, PipelineError>,
    classified: Result<ClassificationResult, ExtractionError>,
    r: Result<String, PipelineError>,
) -> bool {
    match kept {
        Err(e) => r == Err::<String, PipelineError>(e),
        Ok(q) => match classified {
            Err(e) => r == Err::<String, PipelineError>(PipelineError::Classification(e)),
            Ok(c) => r matches Ok(p) && p@ == merged_prompt(q@, c),
        },
    }
}

/// Assembles the advisor's prompt from the document text and its classification.
pub fn merge_prompt(query: &String, c: &ClassificationResult) -> (r: String)
    ensures
        r@ == merged_prompt(query@, *c),
{
    let mut s = String::from_str("\n                Document type: ");
    s.append(c.data_type.as_str());
    s.append("\n                Filepath: ");
    s.append(c.filepath.as_str());
    s.append("\n                Data: ");
    s.append(query.as_str());
    s.append("\n                ");
    s
}

/// Fan-in after the classification fan-out. A failed classification is fatal
/// for the item; otherwise the two branches merge into one prompt.
pub fn merge_stage(
    kept: Result<String, PipelineError>,
    classified: Result<ClassificationResult, ExtractionError>,
) -> (r: Result<String, PipelineError>)
    ensures
        merge_result(kept, classified, r),
{
    let lifted = match classified {
        Ok(c) => Ok(c),
        Err(e) => Err(PipelineError::Classification(e)),
    };
    match kept {
        Err(e) => Err(e),
        Ok(q) => crate::operator::map(
            lifted,
            |c: ClassificationResult| -> (p: String)
                ensures
                    p@ == merged_prompt(q@, c)
                { merge_prompt(&q, &c) },
        ),
    }
}

/// Turns the critique stage's answer into the item's outcome.
pub fn finish_stage(a: Result<CritiqueReport, ExtractionError>) -> (r: Outcome)
    ensures
        r == critique_outcome(a),
{
    match a {
        Ok(rep) => Ok(rep),
        Err(e) => Err(PipelineError::Critique(e)),
    }
}

/// Runs the whole pipeline on one document: the document text goes both
/// through unchanged and to the classifier; their merge goes to the advisor.
/// The advisor is consulted only when the classification succeeded.
pub fn run_document<FC, FA>(doc: &File, classify: FC, advise: FA) -> (r: Outcome) where
    FC: FnOnce(&String) -> Result<ClassificationResult, ExtractionError>,
    FA: FnOnce(String) -> Result<CritiqueReport, ExtractionError>,

    requires
        forall|q: String| q@ == rendered(doc.path@, doc.file_contents@) ==> classify.requires((&q,)),
        forall|q: String, c: ClassificationResult, p: String|
            #![trigger classify.ensures((&q,), Ok::<ClassificationResult, ExtractionError>(c)), advise.requires((p,))]
            q@ == rendered(doc.path@, doc.file_contents@) && classify.ensures(
                (&q,),
                Ok::<ClassificationResult, ExtractionError>(c),
            ) && p@ == merged_prompt(q@, c) ==> advise.requires((p,)),
    ensures
        exists|q: String, c: Result<ClassificationResult, ExtractionError>|
            {
                &&& q@ == rendered(doc.path@, doc.file_contents@)
                &&& classify.ensures((&q,), c)
                &&& match c {
                    Err(e) => r == Err::<CritiqueReport, PipelineError>(
                        PipelineError::Classification(e),
                    ),
                    Ok(cr) => exists|p: String, a: Result<CritiqueReport, ExtractionError>|
                        p@ == merged_prompt(q@, cr) && advise.ensures((p,), a) && r
                            == critique_outcome(a),
                }
            },
{
    let query = doc.to_string();
    let (kept, classified) = parallel(
        &query,
        |q: &String| -> (k: Result<String, PipelineError>)
            ensures
                k == Ok::<String, PipelineError>(*q)
            { passthrough(q.clone()) },
        classify,
    );
    let ghost classified_seen = classified;
    let merged = merge_stage(kept, classified);
    proof {
        if merged is Ok {
            let c = classified_seen->Ok_0;
            let p = merged->Ok_0;
            assert(classify.ensures((&query,), Ok::<ClassificationResult, ExtractionError>(c)));
            assert(advise.requires((p,)));
        }
    }
    chain(
        merged,
        move |p: String| -> (o: Outcome)
            requires
                advise.requires((p,)),
            ensures
                exists|a: Result<CritiqueReport, ExtractionError>|
                    advise.ensures((p,), a) && o == critique_outcome(a)
            { finish_stage(advise(p)) },
    )
}

} // verus!
