use docflow::typestate::DraftDoc;

#[test]
fn fresh_draft_has_empty_content() {
    let post = DraftDoc::new();
    assert_eq!("", post.content());
}

#[test]
fn typed_salad_post_lifecycle() {
    let post = DraftDoc::new();
    let post = post.add_text("I ate salad for lunch today");
    assert_eq!("", post.content());

    let post = post.request_review();
    assert_eq!("", post.content());

    let post = post.approve();
    assert_eq!("I ate salad for lunch today", post.content());
}

#[test]
fn typed_reject_then_edit_again() {
    let post = DraftDoc::new();
    let post = post.add_text("draft text");
    let post = post.request_review();
    let post = post.reject();
    assert_eq!("", post.content());

    let post = post.add_text(" more text");
    let post = post.request_review();
    let post = post.approve();
    assert_eq!("draft text more text", post.content());
}

#[test]
fn typed_texts_concatenate_in_order() {
    let post = DraftDoc::new();
    let post = post.add_text("one").add_text(" two").add_text(" three");
    let post = post.request_review().approve();
    assert_eq!("one two three", post.content());
}

#[test]
fn review_hides_the_buffer() {
    let post = DraftDoc::new().add_text("secret").request_review();
    assert_eq!("", post.content());
}

#[test]
fn empty_draft_publishes_empty_content() {
    let post = DraftDoc::new().request_review().approve();
    assert_eq!("", post.content());
}
