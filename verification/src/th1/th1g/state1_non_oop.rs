//! One type per state of a post: a step is a conversion from one type to
//! the next, so a post that has not been approved has no way to show its
//! content.

use vstd::prelude::*;

verus! {

/// An approved post: the only kind that shows its content.
#[derive(Debug)]
pub struct Post {
    content: String,
}

/// A post with no content yet.
#[derive(Debug)]
pub struct DraftPost;

/// A post with content, waiting for review.
#[derive(Debug)]
pub struct AddedPost {
    content: String,
}

/// A reviewed post, waiting for approval.
#[derive(Debug)]
pub struct ReviewedPost {
    content: String,
}

impl View for Post {
    type V = Seq<char>;

    closed spec fn view(&self) -> Seq<char> {
        self.content@
    }
}

impl View for AddedPost {
    type V = Seq<char>;

    closed spec fn view(&self) -> Seq<char> {
        self.content@
    }
}

impl View for ReviewedPost {
    type V = Seq<char>;

    closed spec fn view(&self) -> Seq<char> {
        self.content@
    }
}

impl Post {
    /// A new post starts as a draft.
    #[allow(clippy::new_ret_no_self)]
    pub fn new() -> (d: DraftPost) {
        DraftPost
    }

    /// The content of the approved post.
    pub fn get(&self) -> (r: &str)
        ensures
            r@ == self@,
    {
        self.content.as_str()
    }

    /// Replaces the content; the post goes back to waiting for review.
    pub fn add_content(self, val: &str) -> (r: AddedPost)
        ensures
            r@ == val@,
    {
        AddedPost { content: val.to_owned() }
    }

    /// Appends to the content; the post goes back to waiting for review.
    pub fn append_content(self, val: &str) -> (r: AddedPost)
        ensures
            r@ == self@ + val@,
    {
        let mut content = self.content;
        content.append(val);
        AddedPost { content }
    }
}

impl DraftPost {
    /// Writes the first content of the post.
    pub fn add_content(self, val: &str) -> (r: AddedPost)
        ensures
            r@ == val@,
    {
        AddedPost { content: val.to_owned() }
    }
}

impl AddedPost {
    /// Reviews the post; the content is kept.
    pub fn review(self) -> (r: ReviewedPost)
        ensures
            r@ == self@,
    {
        ReviewedPost { content: self.content }
    }

    /// Appends to the content.
    pub fn append_content(&mut self, val: &str)
        ensures
            final(self)@ == old(self)@ + val@,
    {
        self.content.append(val);
    }

    /// Replaces the content.
    pub fn add_content(&mut self, val: &str)
        ensures
            final(self)@ == val@,
    {
        self.content = val.to_owned();
    }
}

impl ReviewedPost {
    /// Approves the post; the content is kept.
    pub fn approve(self) -> (r: Post)
        ensures
            r@ == self@,
    {
        Post { content: self.content }
    }

    /// Replaces the content; the post goes back to waiting for review.
    pub fn add_content(self, val: &str) -> (r: AddedPost)
        ensures
            r@ == val@,
    {
        AddedPost { content: val.to_owned() }
    }

    /// Appends to the content; the post goes back to waiting for review.
    pub fn append_content(self, val: &str) -> (r: AddedPost)
        ensures
            r@ == self@ + val@,
    {
        let mut content = self.content;
        content.append(val);
        AddedPost { content }
    }
}

} // verus!
