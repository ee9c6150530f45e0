//! A blog post that shows its text only once it has been reviewed and approved.
//!
//! A post starts as a draft. A request for review moves a draft on to pending
//! review, an approval moves a post pending review on to published; every other
//! request leaves the post where it is. Text can be added in every state.

use vstd::prelude::*;
use vstd::string::*;

verus! {

/// The state a post is in. Each state answers the requests put to the post.
#[derive(Clone, Copy, Debug, PartialEq, Eq, Structural)]
pub enum State {
    Draft,
    PendingReview,
    Published,
}

/// What a post in `state` shows of its `text`: all of it once published, nothing
/// before.
pub open spec fn visible_text(state: State, text: Seq<char>) -> Seq<char> {
    if state == State::Published {
        text
    } else {
        Seq::empty()
    }
}

impl State {
    /// The state after a request for review.
    pub open spec fn after_review_request(self) -> State {
        match self {
            State::Draft => State::PendingReview,
            State::PendingReview => State::PendingReview,
            State::Published => State::Published,
        }
    }

    /// The state after an approval.
    pub open spec fn after_approval(self) -> State {
        match self {
            State::Draft => State::Draft,
            State::PendingReview => State::Published,
            State::Published => State::Published,
        }
    }

    /// A draft goes on to review; a post under review or published stays.
    pub fn request_review(self) -> (next: State)
        ensures
            next == self.after_review_request(),
    {
        match self {
            State::Draft => State::PendingReview,
            State::PendingReview => State::PendingReview,
            State::Published => State::Published,
        }
    }

    /// A post under review is published; a draft stays a draft.
    pub fn approve(self) -> (next: State)
        ensures
            next == self.after_approval(),
    {
        match self {
            State::Draft => State::Draft,
            State::PendingReview => State::Published,
            State::Published => State::Published,
        }
    }

    /// What `post` shows while it is in this state.
    pub fn content<'a>(&self, post: &'a Post) -> (shown: &'a str)
        ensures
            shown@ == visible_text(*self, post.text()),
    {
        match self {
            State::Published => post.content.as_str(),
            _ => {
                proof {
                    reveal_strlit("");
                }
                assert(""@ =~= Seq::<char>::empty());
                ""
            },
        }
    }
}

/// A post: its text and the state it is in.
pub struct Post {
    state: State,
    content: String,
}

impl Post {
    /// The state the post is in.
    pub closed spec fn state(&self) -> State {
        self.state
    }

    /// All the text added so far, shown or not.
    pub closed spec fn text(&self) -> Seq<char> {
        self.content@
    }

    /// A new draft without text.
    pub fn new() -> (post: Post)
        ensures
            post.state() == State::Draft,
            post.text() == Seq::<char>::empty(),
    {
        Post { state: State::Draft, content: String::new() }
    }

    /// Adds `text` at the end of the post's text. The state stays.
    pub fn add_text(&mut self, text: &str)
        ensures
            final(self).text() == old(self).text() + text@,
            final(self).state() == old(self).state(),
    {
        self.content.append(text);
    }

    /// What the post shows: its text once it is published, the empty text before.
    pub fn content(&self) -> (shown: &str)
        ensures
            shown@ == visible_text(self.state(), self.text()),
    {
        self.state.content(self)
    }

    /// Asks for a review: a draft becomes pending review, any other post stays as it
    /// is. The text stays.
    pub fn request_review(&mut self)
        ensures
            final(self).state() == old(self).state().after(Request::Review),
            final(self).text() == old(self).text(),
    {
        self.state = self.state.request_review();
    }

    /// Approves the post: one that is pending review becomes published, any other
    /// stays as it is. The text stays.
    pub fn approve(&mut self)
        ensures
            final(self).state() == old(self).state().after(Request::Approval),
            final(self).text() == old(self).text(),
    {
        self.state = self.state.approve();
    }
}

/// A request that can be put to a post.
#[derive(Clone, Copy, Debug, PartialEq, Eq, Structural)]
pub enum Request {
    Review,
    Approval,
}

impl State {
    /// The state after one request.
    pub open spec fn after(self, request: Request) -> State {
        match request {
            Request::Review => self.after_review_request(),
            Request::Approval => self.after_approval(),
        }
    }

    /// The state after a run of requests, taken from first to last.
    pub open spec fn after_all(self, requests: Seq<Request>) -> State
        decreases requests.len(),
    {
        if requests.len() == 0 {
            self
        } else {
            self.after_all(requests.drop_last()).after(requests.last())
        }
    }
}

/// A draft gets published only by a request for review and a later approval: a run of
/// requests that takes a draft to published holds the one before the other, and a run
/// that takes it to pending review holds a request for review.
pub proof fn law_no_publication_without_review(requests: Seq<Request>)
    ensures
        State::Draft.after_all(requests) == State::PendingReview ==> exists|i: int|
            0 <= i < requests.len() && requests[i] == Request::Review,
        State::Draft.after_all(requests) == State::Published ==> exists|i: int, j: int|
            0 <= i < j < requests.len() && requests[i] == Request::Review && requests[j]
                == Request::Approval,
    decreases requests.len(),
{
    if requests.len() > 0 {
        let earlier = requests.drop_last();
        let last = requests.len() - 1;
        law_no_publication_without_review(earlier);
        let before = State::Draft.after_all(earlier);
        if State::Draft.after_all(requests) == State::PendingReview {
            if before == State::PendingReview {
                let i = choose|i: int| 0 <= i < earlier.len() && earlier[i] == Request::Review;
                assert(requests[i] == Request::Review);
            } else {
                assert(requests[last] == Request::Review);
            }
        }
        if State::Draft.after_all(requests) == State::Published {
            if before == State::Published {
                let (i, j) = choose|i: int, j: int|
                    0 <= i < j < earlier.len() && earlier[i] == Request::Review && earlier[j]
                        == Request::Approval;
                assert(requests[i] == Request::Review && requests[j] == Request::Approval);
            } else {
                assert(before == State::PendingReview);
                let i = choose|i: int| 0 <= i < earlier.len() && earlier[i] == Request::Review;
                assert(requests[i] == Request::Review && requests[last] == Request::Approval);
            }
        }
    }
}

/// Once published, a post stays published, whatever is asked of it.
pub proof fn law_published_is_final(requests: Seq<Request>)
    ensures
        State::Published.after_all(requests) == State::Published,
    decreases requests.len(),
{
    if requests.len() > 0 {
        law_published_is_final(requests.drop_last());
    }
}

/// A post shows nothing of its text before it is published, and all of it after.
pub proof fn law_text_shows_once_published(state: State, text: Seq<char>)
    ensures
        state != State::Published ==> visible_text(state, text) == Seq::<char>::empty(),
        state == State::Published ==> visible_text(state, text) == text,
{
}

} // verus!
