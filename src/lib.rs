//! Batch documentation critique: the document model, the corpus filtering
//! policy, the operator combinators, the per-document pipeline, the batch
//! executor and the result collector.
pub mod batch;
pub mod document;
pub mod filter;
pub mod operator;
pub mod pipeline;
pub mod report;
pub mod walk;

pub use batch::{batch_execute, collect_reports};
pub use document::File;
pub use filter::{accept_document, entry_action, is_long_enough, EntryAction, MIN_DOC_CHARS};
pub use walk::CorpusWalk;
pub use pipeline::{finish_stage, merge_prompt, merge_stage, run_document};
pub use report::{
    decode_classification, decode_report, parse_category, parse_priority,
    ClassificationResult, CritiqueReport, DocumentType, ExtractionError, Issue, Outcome,
    PipelineError, Priority,
};
