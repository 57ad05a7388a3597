//! A blog post whose stages are types: only a published post has a text to
//! show, and the only way to one leads through a review and an approval.

use vstd::prelude::*;
use vstd::string::StringExecFns;

verus! {

/// A published post.
pub struct Post {
    content: String,
}

/// A post that is being written.
pub struct DraftPost {
    content: String,
}

/// A post that waits for its review.
pub struct PendingReviewPost {
    content: String,
}

impl View for Post {
    type V = Seq<char>;

    closed spec fn view(&self) -> Seq<char> {
        self.content@
    }
}

impl View for DraftPost {
    type V = Seq<char>;

    closed spec fn view(&self) -> Seq<char> {
        self.content@
    }
}

impl View for PendingReviewPost {
    type V = Seq<char>;

    closed spec fn view(&self) -> Seq<char> {
        self.content@
    }
}

impl Post {
    /// An empty draft: every post begins as one.
    pub fn new() -> (draft: DraftPost)
        ensures
            draft@ == Seq::<char>::empty(),
    {
        DraftPost { content: String::new() }
    }

    /// The text of the post.
    pub fn content(&self) -> (shown: &str)
        ensures
            shown@ == self@,
    {
        self.content.as_str()
    }
}

impl DraftPost {
    /// Writes `text` behind what the draft holds.
    pub fn add_text(&mut self, text: &str)
        ensures
            final(self)@ == old(self)@ + text@,
    {
        self.content.append(text);
    }

    /// Hands the draft in for review, with its text as it is.
    pub fn request_review(self) -> (pending: PendingReviewPost)
        ensures
            pending@ == self@,
    {
        PendingReviewPost { content: self.content }
    }
}

impl PendingReviewPost {
    /// Approves the post, which publishes its text as it is.
    pub fn approve(self) -> (post: Post)
        ensures
            post@ == self@,
    {
        Post { content: self.content }
    }
}

} // verus!
