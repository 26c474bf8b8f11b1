use book_exercises::post::{Post, State};

#[test]
fn draft_shows_nothing() {
    let mut post = Post::new();
    post.add_text("I ate a salad for lunch today");
    assert_eq!(post.content(), "");
}

#[test]
fn review_then_approval_publishes() {
    let mut post = Post::new();
    post.add_text("I ate a salad");
    post.add_text(" for lunch today");
    post.request_review();
    assert_eq!(post.content(), "");
    post.approve();
    assert_eq!(post.content(), "I ate a salad for lunch today");
}

#[test]
fn approval_without_review_keeps_draft() {
    let mut post = Post::new();
    post.add_text("text");
    post.approve();
    assert_eq!(post.content(), "");
    post.request_review();
    post.request_review();
    post.approve();
    post.approve();
    assert_eq!(post.content(), "text");
}

#[test]
fn state_transitions() {
    assert_eq!(State::Draft.request_review(), State::PendingReview);
    assert_eq!(State::PendingReview.request_review(), State::PendingReview);
    assert_eq!(State::Published.request_review(), State::Published);
    assert_eq!(State::Draft.approve(), State::Draft);
    assert_eq!(State::PendingReview.approve(), State::Published);
    assert_eq!(State::Published.approve(), State::Published);
}
