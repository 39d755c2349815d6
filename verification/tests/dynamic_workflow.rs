use docflow::document::Document;

#[test]
fn fresh_document_has_empty_content() {
    let post = Document::new();
    assert_eq!("", post.content());
}

#[test]
fn salad_post_lifecycle() {
    let mut post = Document::new();

    post.add_text("I ate salad for lunch today");
    assert_eq!("", post.content());

    post.request_review();
    assert_eq!("", post.content());

    post.approve();
    assert_eq!("I ate salad for lunch today", post.content());
}

#[test]
fn reject_then_edit_again() {
    let mut post = Document::new();

    post.add_text("draft text");
    post.request_review();
    post.reject();
    assert_eq!("", post.content());

    post.add_text(" more text");
    post.request_review();
    post.approve();
    assert_eq!("draft text more text", post.content());
}

#[test]
fn add_text_ignored_while_in_review() {
    let mut post = Document::new();
    post.add_text("kept");
    post.request_review();
    post.add_text(" dropped");
    post.approve();
    assert_eq!("kept", post.content());
}

#[test]
fn add_text_ignored_once_published() {
    let mut post = Document::new();
    post.add_text("final");
    post.request_review();
    post.approve();
    post.add_text(" dropped");
    assert_eq!("final", post.content());
}

#[test]
fn approve_and_reject_are_noops_in_draft() {
    let mut post = Document::new();
    post.approve();
    post.reject();
    assert_eq!("", post.content());

    // Still a draft: text is accepted and the normal path still works.
    post.add_text("a");
    post.request_review();
    post.approve();
    assert_eq!("a", post.content());
}

#[test]
fn approve_and_reject_are_noops_once_published() {
    let mut post = Document::new();
    post.add_text("done");
    post.request_review();
    post.approve();

    post.approve();
    assert_eq!("done", post.content());
    post.reject();
    assert_eq!("done", post.content());
}

#[test]
fn request_review_is_idempotent_in_review() {
    let mut post = Document::new();
    post.add_text("once");
    post.request_review();
    post.request_review();
    post.approve();
    assert_eq!("once", post.content());
}

#[test]
fn texts_concatenate_in_order() {
    let mut post = Document::new();
    post.add_text("one");
    post.add_text(" two");
    post.add_text(" three");
    post.request_review();
    post.approve();
    assert_eq!("one two three", post.content());
}

#[test]
fn empty_additions_leave_buffer_empty() {
    let mut post = Document::new();
    post.add_text("");
    post.request_review();
    post.approve();
    assert_eq!("", post.content());
}
