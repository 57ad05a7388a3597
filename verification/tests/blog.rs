use hello::blog::Post;
use hello::blog_typed::Post as TypedPost;

#[test]
fn a_post_shows_its_text_once_it_is_approved() {
    let mut post = Post::new();

    post.add_text("I ate a salad for lunch today");
    assert_eq!("", post.content());

    post.request_review();
    assert_eq!("", post.content());

    post.approve();
    assert_eq!("I ate a salad for lunch today", post.content());
}

#[test]
fn approval_without_review_publishes_nothing() {
    let mut post = Post::new();
    post.add_text("draft");
    post.approve();
    assert_eq!("", post.content());
    post.request_review();
    assert_eq!("", post.content());
    post.approve();
    assert_eq!("draft", post.content());
}

#[test]
fn a_rejected_post_needs_another_review() {
    let mut post = Post::new();
    post.add_text("first try");
    post.request_review();
    post.reject();
    post.approve();
    assert_eq!("", post.content());
    post.add_text(", second try");
    post.request_review();
    post.approve();
    assert_eq!("first try, second try", post.content());
}

#[test]
fn a_published_post_stays_published() {
    let mut post = Post::new();
    post.add_text("done");
    post.request_review();
    post.approve();
    post.reject();
    post.request_review();
    post.approve();
    assert_eq!("done", post.content());
    post.add_text("!");
    assert_eq!("done!", post.content());
}

#[test]
fn a_typed_post_is_published_through_review_and_approval() {
    let mut post = TypedPost::new();

    post.add_text("I ate a salad for lunch today");

    let post = post.request_review();

    let post = post.approve();

    assert_eq!("I ate a salad for lunch today", post.content());
}

#[test]
fn a_typed_draft_collects_what_is_written() {
    let mut draft = TypedPost::new();
    draft.add_text("a");
    draft.add_text("");
    draft.add_text("bc");
    assert_eq!("abc", draft.request_review().approve().content());
    assert_eq!("", TypedPost::new().request_review().approve().content());
}
