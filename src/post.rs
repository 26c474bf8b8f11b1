use vstd::prelude::*;
use vstd::string::StringExecFns;

verus! {

/// Where a post stands in its review workflow.
#[derive(Clone, Copy, Debug, PartialEq, Eq, Structural)]
pub enum State {
    Draft,
    PendingReview,
    Published,
}

impl State {
    /// A draft goes to review; the other states stay as they are.
    pub fn request_review(self) -> (r: State)
        ensures
            r == (if self == State::Draft {
                State::PendingReview
            } else {
                self
            }),
    {
        match self {
            State::Draft => State::PendingReview,
            State::PendingReview => self,
            State::Published => self,
        }
    }

    /// A post under review is published; the other states stay as they are.
    pub fn approve(self) -> (r: State)
        ensures
            r == (if self == State::PendingReview {
                State::Published
            } else {
                self
            }),
    {
        match self {
            State::Draft => self,
            State::PendingReview => State::Published,
            State::Published => self,
        }
    }

    /// What a post in this state shows: its text once published, else nothing.
    pub fn content<'a>(&self, post: &'a Post) -> (r: &'a str)
        ensures
            r@ == (if *self == State::Published {
                post.text_spec()
            } else {
                Seq::<char>::empty()
            }),
    {
        match self {
            State::Published => post.text.as_str(),
            _ => {
                proof {
                    reveal_strlit("");
                }
                ""
            },
        }
    }
}

/// A blog post that shows its text only once it has been reviewed and approved.
pub struct Post {
    state: State,
    text: String,
}

impl Post {
    pub closed spec fn state_spec(&self) -> State {
        self.state
    }

    pub closed spec fn text_spec(&self) -> Seq<char> {
        self.text@
    }

    /// An empty draft.
    pub fn new() -> (r: Post)
        ensures
            r.state_spec() == State::Draft,
            r.text_spec() == Seq::<char>::empty(),
    {
        Post { state: State::Draft, text: String::new() }
    }

    /// Appends `text` to the post's text, whatever its state.
    pub fn add_text(&mut self, text: &str)
        ensures
            final(self).text_spec() == old(self).text_spec() + text@,
            final(self).state_spec() == old(self).state_spec(),
    {
        self.text.append(text);
    }

    /// The published text, or the empty string before publication.
    pub fn content(&self) -> (r: &str)
        ensures
            r@ == (if self.state_spec() == State::Published {
                self.text_spec()
            } else {
                Seq::<char>::empty()
            }),
    {
        self.state.content(self)
    }

    /// Sends a draft to review.
    pub fn request_review(&mut self)
        ensures
            final(self).state_spec() == (if old(self).state_spec() == State::Draft {
                State::PendingReview
            } else {
                old(self).state_spec()
            }),
            final(self).text_spec() == old(self).text_spec(),
    {
        self.state = self.state.request_review();
    }

    /// Publishes a post under review.
    pub fn approve(&mut self)
        ensures
            final(self).state_spec() == (if old(self).state_spec() == State::PendingReview {
                State::Published
            } else {
                old(self).state_spec()
            }),
            final(self).text_spec() == old(self).text_spec(),
    {
        self.state = self.state.approve();
    }
}

} // verus!
