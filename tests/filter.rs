use docs_enricher::{
    accept_document, entry_action, is_long_enough, CorpusWalk, EntryAction, MIN_DOC_CHARS,
};

#[test]
fn length_threshold_boundary() {
    let short = "a".repeat(249);
    let long = "a".repeat(250);
    assert!(accept_document("s.mdx".to_string(), short.clone()).is_none());
    let kept = accept_document("l.mdx".to_string(), long.clone()).unwrap();
    assert_eq!(kept.path, "l.mdx");
    assert_eq!(kept.file_contents, long);
    assert!(!is_long_enough(&short));
    assert_eq!(MIN_DOC_CHARS, 250);
}

#[test]
fn length_counts_characters() {
    let wide = "é".repeat(250);
    assert!(is_long_enough(&wide));
    assert!(!is_long_enough(&"é".repeat(249)));
}

#[test]
fn directories_are_walked_unless_snippets() {
    assert_eq!(entry_action("/tmp/x/docs", true), EntryAction::Descend);
    assert_eq!(entry_action("/tmp/x/_snippets", true), EntryAction::Skip);
    assert_eq!(entry_action("/tmp/x/_snippets/inner", true), EntryAction::Skip);
    assert_eq!(entry_action("/tmp/x/guide.mdx", true), EntryAction::Descend);
}

#[test]
fn markup_files_are_read_except_index() {
    assert_eq!(entry_action("/tmp/x/guide.mdx", false), EntryAction::Read);
    assert_eq!(entry_action("guide.mdx", false), EntryAction::Read);
    assert_eq!(entry_action("/tmp/x/overview.mdx", false), EntryAction::Skip);
    assert_eq!(entry_action("/tmp/x/my-overview.mdx", false), EntryAction::Read);
    assert_eq!(entry_action("/tmp/x/guide.md", false), EntryAction::Skip);
    assert_eq!(entry_action("/tmp/x/guide.mdxx", false), EntryAction::Skip);
    assert_eq!(entry_action("/tmp/x/.mdx", false), EntryAction::Skip);
    assert_eq!(entry_action("/tmp/x.mdx/readme", false), EntryAction::Skip);
}

#[test]
fn walk_queues_directories_and_keeps_long_documents() {
    let mut walk = CorpusWalk::new("/root".to_string());
    assert_eq!(walk.next_dir(), Some("/root".to_string()));
    assert_eq!(walk.visit("/root/docs".to_string(), true), EntryAction::Descend);
    assert_eq!(walk.visit("/root/_snippets".to_string(), true), EntryAction::Skip);
    assert_eq!(walk.visit("/root/a.mdx".to_string(), false), EntryAction::Read);
    assert_eq!(walk.visit("/root/overview.mdx".to_string(), false), EntryAction::Skip);
    walk.offer("/root/a.mdx".to_string(), "x".repeat(300));
    walk.offer("/root/b.mdx".to_string(), "x".repeat(10));
    assert_eq!(walk.next_dir(), Some("/root/docs".to_string()));
    assert_eq!(walk.next_dir(), None);
    let docs = walk.into_documents();
    assert_eq!(docs.len(), 1);
    assert_eq!(docs[0].path, "/root/a.mdx");
}
