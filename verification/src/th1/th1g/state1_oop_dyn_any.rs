//! A post whose state is a value, where each step first checks which state
//! the post is in and acts only from the one state it is meant for.
//!
//! Writing content (`insert`, `append`) sends the post to `Added`; `review`
//! acts only on an added post and `approve` only on a reviewed one; any
//! other state is kept. Only an approved post shows its content, and unlike
//! [`super::state1_oop_box_dyn::Post`], reviewing an approved post keeps it
//! approved.

use vstd::prelude::*;

verus! {

/// The state of a post.
#[derive(PartialEq, Eq, Structural, Clone, Copy, Debug)]
pub enum State {
    /// Created, with no content written yet.
    Created,
    /// Content written, not yet reviewed.
    Added,
    /// Reviewed, not yet approved.
    Reviewed,
    /// Approved: the content is shown.
    Approved,
}

impl State {
    /// The state a review step of the state itself leads to.
    pub open spec fn spec_review(self) -> State {
        match self {
            State::Created => State::Created,
            State::Added => State::Reviewed,
            State::Reviewed => State::Reviewed,
            State::Approved => State::Reviewed,
        }
    }

    /// The state an approval step of the state itself leads to.
    pub open spec fn spec_approve(self) -> State {
        match self {
            State::Reviewed => State::Approved,
            _ => self,
        }
    }

    /// The state after a post's `review`: only an added post moves on.
    pub open spec fn spec_post_review(self) -> State {
        if self == State::Added {
            State::Reviewed
        } else {
            self
        }
    }

    /// The state after a post's `approve`: only a reviewed post moves on.
    pub open spec fn spec_post_approve(self) -> State {
        if self == State::Reviewed {
            State::Approved
        } else {
            self
        }
    }

    /// The review step of a state.
    pub fn review_state(self) -> (r: State)
        ensures
            r == self.spec_review(),
    {
        match self {
            State::Created => State::Created,
            State::Added => State::Reviewed,
            State::Reviewed => State::Reviewed,
            State::Approved => State::Reviewed,
        }
    }

    /// The approval step of a state.
    pub fn approve_state(self) -> (r: State)
        ensures
            r == self.spec_approve(),
    {
        match self {
            State::Reviewed => State::Approved,
            other => other,
        }
    }

    /// The step for written content: every state moves to `Added`.
    pub fn add_state(self) -> (r: State)
        ensures
            r == State::Added,
    {
        State::Added
    }
}

/// A post: its state and its content.
pub struct Post {
    state: State,
    content: String,
}

impl View for Post {
    type V = (State, Seq<char>);

    closed spec fn view(&self) -> (State, Seq<char>) {
        (self.state, self.content@)
    }
}

/// What a post shows: its content when approved, nothing otherwise.
pub open spec fn shown(v: (State, Seq<char>)) -> Seq<char> {
    if v.0 == State::Approved {
        v.1
    } else {
        Seq::empty()
    }
}

impl Post {
    /// A new post, created and empty.
    pub fn new() -> (p: Self)
        ensures
            p@ == (State::Created, Seq::<char>::empty()),
    {
        Post { state: State::Created, content: String::new() }
    }

    /// Replaces the content; the post moves to `Added`.
    pub fn insert(&mut self, content: &str)
        ensures
            final(self)@ == (State::Added, content@),
    {
        self.content = content.to_owned();
        self.state = self.state.add_state();
    }

    /// Appends to the content; the post moves to `Added`.
    pub fn append(&mut self, content: &str)
        ensures
            final(self)@ == (State::Added, old(self)@.1 + content@),
    {
        self.content.append(content);
        self.state = self.state.add_state();
    }

    /// Reviews an added post; in any other state the post is unchanged.
    pub fn review(&mut self)
        ensures
            final(self)@ == (old(self)@.0.spec_post_review(), old(self)@.1),
    {
        if self.state == State::Added {
            self.state = self.state.review_state();
        }
    }

    /// Approves a reviewed post; in any other state the post is unchanged.
    pub fn approve(&mut self)
        ensures
            final(self)@ == (old(self)@.0.spec_post_approve(), old(self)@.1),
    {
        if self.state == State::Reviewed {
            self.state = self.state.approve_state();
        }
    }

    /// What the post shows: the content once approved, else the empty text.
    pub fn get(&self) -> (r: &str)
        ensures
            r@ == shown(self@),
    {
        if self.state == State::Approved {
            return self.content.as_str();
        }
        proof {
            reveal_strlit("");
        }
        ""
    }
}

/// Writing content leaves a post `Added` whatever state it was in (see
/// [`Post::insert`] and [`Post::append`]); reviewing and then approving an
/// added post publishes it, and it then shows exactly what was written.
pub proof fn lemma_write_review_approve_publishes(text: Seq<char>)
    ensures
        State::Added.spec_post_review().spec_post_approve() == State::Approved,
        shown((State::Added.spec_post_review().spec_post_approve(), text)) == text,
{
}

/// An approval publishes only a reviewed post: from any other state that is
/// not already approved, approving shows nothing.
pub proof fn lemma_approve_needs_review(s: State, text: Seq<char>)
    requires
        s != State::Reviewed,
        s != State::Approved,
    ensures
        s.spec_post_approve() == s,
        shown((s.spec_post_approve(), text)) == Seq::<char>::empty(),
{
}

/// Once approved, a post stays approved under `review` and `approve`.
pub proof fn lemma_approved_is_stable()
    ensures
        State::Approved.spec_post_review() == State::Approved,
        State::Approved.spec_post_approve() == State::Approved,
{
}

/// Reviewing twice is reviewing once, and approving twice is approving once.
pub proof fn lemma_review_approve_idempotent(s: State)
    ensures
        s.spec_post_review().spec_post_review() == s.spec_post_review(),
        s.spec_post_approve().spec_post_approve() == s.spec_post_approve(),
{
}

} // verus!
