//! A blog post that keeps its text to itself until it has been reviewed and
//! approved.

use vstd::prelude::*;
use vstd::string::StringExecFns;

verus! {

/// The stage of a post on its way to publication.
#[derive(Clone, Copy, Debug, PartialEq, Eq, Structural)]
pub enum State {
    Draft,
    PendingReview,
    Published,
}

impl State {
    /// The stage after a review was asked for: a draft goes to review, any
    /// other stage stays.
    pub open spec fn reviewed(self) -> State {
        match self {
            State::Draft => State::PendingReview,
            other => other,
        }
    }

    /// The stage after an approval: a post under review is published, any
    /// other stage stays.
    pub open spec fn approved(self) -> State {
        match self {
            State::PendingReview => State::Published,
            other => other,
        }
    }

    /// The stage after a rejection: a post under review is a draft again,
    /// any other stage stays.
    pub open spec fn rejected(self) -> State {
        match self {
            State::PendingReview => State::Draft,
            other => other,
        }
    }

    fn request_review(self) -> (next: State)
        ensures
            next == self.reviewed(),
    {
        match self {
            State::Draft => State::PendingReview,
            State::PendingReview => State::PendingReview,
            State::Published => State::Published,
        }
    }

    fn approve(self) -> (next: State)
        ensures
            next == self.approved(),
    {
        match self {
            State::Draft => State::Draft,
            State::PendingReview => State::Published,
            State::Published => State::Published,
        }
    }

    fn reject(self) -> (next: State)
        ensures
            next == self.rejected(),
    {
        match self {
            State::Draft => State::Draft,
            State::PendingReview => State::Draft,
            State::Published => State::Published,
        }
    }
}

/// What a post holds: its stage and everything written into it.
pub struct PostView {
    pub state: State,
    pub text: Seq<char>,
}

impl PostView {
    /// What a reader gets to see: the text of a published post, and nothing
    /// of any other.
    pub open spec fn visible(self) -> Seq<char> {
        if self.state == State::Published {
            self.text
        } else {
            Seq::empty()
        }
    }
}

/// A post with its stage.
pub struct Post {
    state: State,
    content: String,
}

impl View for Post {
    type V = PostView;

    closed spec fn view(&self) -> PostView {
        PostView { state: self.state, text: self.content@ }
    }
}

impl Post {
    /// An empty draft.
    pub fn new() -> (post: Post)
        ensures
            post@ == (PostView { state: State::Draft, text: Seq::empty() }),
    {
        Post { state: State::Draft, content: String::new() }
    }

    /// Writes `text` behind what the post holds, at any stage.
    pub fn add_text(&mut self, text: &str)
        ensures
            final(self)@ == (PostView { text: old(self)@.text + text@, ..old(self)@ }),
    {
        self.content.append(text);
    }

    /// The text as a reader sees it: empty until the post is published.
    pub fn content(&self) -> (shown: &str)
        ensures
            shown@ == self@.visible(),
    {
        match self.state {
            State::Published => self.content.as_str(),
            _ => {
                proof {
                    reveal_strlit("");
                }
                assert(""@ =~= Seq::<char>::empty());
                ""
            },
        }
    }

    /// Asks for a review of a draft. Has no effect at another stage.
    pub fn request_review(&mut self)
        ensures
            final(self)@ == (PostView { state: old(self)@.state.reviewed(), ..old(self)@ }),
    {
        self.state = self.state.request_review();
    }

    /// Approves a post under review, which publishes it. Has no effect at
    /// another stage.
    pub fn approve(&mut self)
        ensures
            final(self)@ == (PostView { state: old(self)@.state.approved(), ..old(self)@ }),
    {
        self.state = self.state.approve();
    }

    /// Rejects a post under review, which makes it a draft again. Has no
    /// effect at another stage.
    pub fn reject(&mut self)
        ensures
            final(self)@ == (PostView { state: old(self)@.state.rejected(), ..old(self)@ }),
    {
        self.state = self.state.reject();
    }
}

} // verus!
