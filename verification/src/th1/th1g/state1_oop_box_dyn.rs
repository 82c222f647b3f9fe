//! A post whose state is a value that each step replaces by the next one.
//!
//! A post is created empty. Writing content (`insert`, `append`) sends it
//! to `Added`; `review` moves an added post to `Reviewed`; `approve` moves a
//! reviewed post to `Approved`. Only an approved post shows its content.
//! Reviewing an approved post takes it back to `Reviewed`.

use vstd::prelude::*;

verus! {

/// The state of a post.
#[derive(PartialEq, Eq, Structural, Clone, Copy, Debug)]
pub enum State {
    /// Created, with no content written yet.
    Created,
    /// Content written, not yet reviewed.
    Added,
    /// Reviewed, not yet approved.
    Reviewed,
    /// Approved: the content is shown.
    Approved,
}

impl State {
    /// The state after a review.
    pub open spec fn spec_review(self) -> State {
        match self {
            State::Created => State::Created,
            State::Added => State::Reviewed,
            State::Reviewed => State::Reviewed,
            State::Approved => State::Reviewed,
        }
    }

    /// The state after an approval.
    pub open spec fn spec_approve(self) -> State {
        match self {
            State::Reviewed => State::Approved,
            _ => self,
        }
    }

    /// The state after content is written: always `Added`.
    pub open spec fn spec_add(self) -> State {
        State::Added
    }

    /// Review: an added post becomes reviewed, an approved one goes back to
    /// reviewed; a created or reviewed post keeps its state.
    pub fn review_state(self) -> (r: State)
        ensures
            r == self.spec_review(),
    {
        match self {
            State::Created => State::Created,
            State::Added => State::Reviewed,
            State::Reviewed => State::Reviewed,
            State::Approved => State::Reviewed,
        }
    }

    /// Approve: only a reviewed post becomes approved.
    pub fn approve_state(self) -> (r: State)
        ensures
            r == self.spec_approve(),
    {
        match self {
            State::Reviewed => State::Approved,
            other => other,
        }
    }

    /// Writing content: every state moves to `Added`.
    pub fn add_state(self) -> (r: State)
        ensures
            r == self.spec_add(),
    {
        State::Added
    }

    /// What a post in this state shows of `content`: all of it when
    /// approved, nothing otherwise.
    pub fn content<'a>(&self, content: &'a str) -> (r: &'a str)
        ensures
            *self == State::Approved ==> r@ == content@,
            *self != State::Approved ==> r@ == Seq::<char>::empty(),
    {
        match self {
            State::Approved => content,
            _ => {
                proof {
                    reveal_strlit("");
                }
                ""
            },
        }
    }
}

/// A post: its state and its content.
pub struct Post {
    state: State,
    content: String,
}

impl View for Post {
    type V = (State, Seq<char>);

    closed spec fn view(&self) -> (State, Seq<char>) {
        (self.state, self.content@)
    }
}

/// What a post shows: its content when approved, nothing otherwise.
pub open spec fn shown(v: (State, Seq<char>)) -> Seq<char> {
    if v.0 == State::Approved {
        v.1
    } else {
        Seq::empty()
    }
}

impl Post {
    /// A new post, created and empty.
    pub fn new() -> (p: Self)
        ensures
            p@ == (State::Created, Seq::<char>::empty()),
    {
        Post { state: State::Created, content: String::new() }
    }

    /// Replaces the content; the post moves to `Added`.
    pub fn insert(&mut self, content: &str)
        ensures
            final(self)@ == (State::Added, content@),
    {
        self.content = content.to_owned();
        self.state = self.state.add_state();
    }

    /// Appends to the content; the post moves to `Added`.
    pub fn append(&mut self, content: &str)
        ensures
            final(self)@ == (State::Added, old(self)@.1 + content@),
    {
        self.content.append(content);
        self.state = self.state.add_state();
    }

    /// Reviews the post; the content is unchanged.
    pub fn review(&mut self)
        ensures
            final(self)@ == (old(self)@.0.spec_review(), old(self)@.1),
    {
        self.state = self.state.review_state();
    }

    /// Approves the post; the content is unchanged.
    pub fn approve(&mut self)
        ensures
            final(self)@ == (old(self)@.0.spec_approve(), old(self)@.1),
    {
        self.state = self.state.approve_state();
    }

    /// What the post shows: the content once approved, else the empty text.
    pub fn get(&self) -> (r: &str)
        ensures
            r@ == shown(self@),
    {
        self.state.content(self.content.as_str())
    }
}

/// Writing, reviewing and approving publishes a post from any state, and it
/// then shows exactly what was written.
pub proof fn lemma_write_review_approve_publishes(s: State, text: Seq<char>)
    ensures
        s.spec_add().spec_review().spec_approve() == State::Approved,
        shown((s.spec_add().spec_review().spec_approve(), text)) == text,
{
}

/// An approval publishes only a reviewed post: from any other state that is
/// not already approved, approving shows nothing.
pub proof fn lemma_approve_needs_review(s: State, text: Seq<char>)
    requires
        s != State::Reviewed,
        s != State::Approved,
    ensures
        s.spec_approve() != State::Approved,
        shown((s.spec_approve(), text)) == Seq::<char>::empty(),
{
}

/// Every edit unpublishes: after `insert` or `append` the post shows nothing.
pub proof fn lemma_edit_unpublishes(s: State, text: Seq<char>)
    ensures
        shown((s.spec_add(), text)) == Seq::<char>::empty(),
{
}

/// Reviewing twice is reviewing once, and approving twice is approving once.
pub proof fn lemma_review_approve_idempotent(s: State)
    ensures
        s.spec_review().spec_review() == s.spec_review(),
        s.spec_approve().spec_approve() == s.spec_approve(),
{
}

/// Reviewing an approved post withdraws it: it shows nothing until it is
/// approved again.
pub proof fn lemma_review_withdraws(text: Seq<char>)
    ensures
        shown((State::Approved.spec_review(), text)) == Seq::<char>::empty(),
        State::Approved.spec_review().spec_approve() == State::Approved,
{
}

} // verus!
