use blocklist::attachments::parse_context_attachments;
use blocklist::context_references::{context_references, ReferenceKind};

fn sorted(mut entries: Vec<(String, u32)>) -> Vec<(String, u32)> {
    entries.sort();
    entries
}

fn s(text: &str) -> String {
    text.to_string()
}

#[test]
fn resolved_references_are_kept_under_their_text() {
    let attachments = parse_context_attachments(
        vec![(s("<block:1>"), Some(1)), (s("<change:x>"), None), (s("<plan:p>"), Some(3))],
        vec![],
        None,
    );
    assert_eq!(sorted(attachments), vec![(s("<block:1>"), 1), (s("<plan:p>"), 3)]);
}

#[test]
fn a_repeated_reference_keeps_its_last_resolution() {
    let attachments = parse_context_attachments(
        vec![(s("<block:1>"), Some(1)), (s("<block:1>"), Some(2))],
        vec![],
        None,
    );
    assert_eq!(attachments, vec![(s("<block:1>"), 2)]);
}

#[test]
fn files_with_taken_names_get_the_first_free_suffix() {
    let attachments = parse_context_attachments(
        vec![(s("a.rs (1)"), Some(7))],
        vec![(s("a.rs"), 10), (s("a.rs"), 11), (s("a.rs"), 12), (s("b.rs"), 13)],
        None,
    );
    assert_eq!(
        sorted(attachments),
        vec![
            (s("a.rs"), 10),
            (s("a.rs (1)"), 7),
            (s("a.rs (2)"), 11),
            (s("a.rs (3)"), 12),
            (s("b.rs"), 13),
        ]
    );
}

#[test]
fn suffixes_go_past_nine() {
    let files: Vec<(String, u32)> = (0..12).map(|i| (s("x"), i)).collect();
    let attachments = sorted(parse_context_attachments(vec![], files, None));
    assert_eq!(attachments.len(), 12);
    assert!(attachments.contains(&(s("x (10)"), 10)));
    assert!(attachments.contains(&(s("x (11)"), 11)));
    assert!(attachments.contains(&(s("x"), 0)));
}

#[test]
fn the_pending_document_comes_last_under_its_id() {
    let attachments = parse_context_attachments(
        vec![(s("doc-1"), Some(1))],
        vec![(s("doc-1"), 2)],
        Some((s("doc-1"), 3)),
    );
    assert_eq!(sorted(attachments), vec![(s("doc-1"), 3), (s("doc-1 (1)"), 2)]);
}

#[derive(Debug, PartialEq)]
enum Attachment {
    DocumentContent { document_id: String, content: String, user_attached: bool },
}

#[test]
fn parses_plan_reference_as_document_attachment() {
    let document_id = "2f1c8a4e-0000-4000-8000-000000000001".to_string();
    let reference = format!("<plan:{document_id}>");
    let query = format!("use {reference}");
    // The plans the document model knows: this one, with its content.
    let documents = vec![(document_id.clone(), "ship it".to_string())];
    let resolved: Vec<(String, Option<Attachment>)> = context_references(&query)
        .into_iter()
        .map(|r| {
            let found = match r.kind {
                ReferenceKind::Plan => documents
                    .iter()
                    .find(|(id, _)| *id == r.key)
                    .map(|(id, content)| Attachment::DocumentContent {
                        document_id: id.clone(),
                        content: content.clone(),
                        user_attached: true,
                    }),
                _ => None,
            };
            (r.reference, found)
        })
        .collect();
    let attachments = parse_context_attachments(resolved, vec![], None);
    let attachment = attachments
        .iter()
        .find(|(key, _)| *key == reference)
        .map(|(_, a)| a)
        .expect("plan reference should be attached");
    assert!(matches!(
        attachment,
        Attachment::DocumentContent { document_id: id, content, user_attached: true }
            if id == &document_id && content == "ship it"
    ));
}
