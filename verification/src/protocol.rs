//! The retry-and-repair protocol.
//!
//! A model is asked for a JSON array of suggestions but often replies with
//! something else.  A [`RetrySession`] tracks one logical request: each
//! transport reply is fed in, and either parses — ending the session with
//! classified suggestions — or is recorded so that the next prompt can list
//! every failed reply verbatim.  The session allows at most
//! [`MAX_ATTEMPTS`] attempts; a caller that exhausts them degrades to a
//! single advisory result instead of an error.

use vstd::prelude::*;

use crate::decode::{option_views, parse_options, repaired_models};
use crate::response::{classified_all, classify_all, CommandOption, OptionModel, ResponseType,
    COMMAND_THRESHOLD};

verus! {

/// The bound on transport attempts within one logical request.
pub const MAX_ATTEMPTS: usize = 5;

/// The per-request state of the retry-and-repair protocol: how many replies
/// failed so far, and those replies verbatim, oldest first.
pub struct RetrySession {
    attempts: usize,
    failed: Vec<String>,
}

/// What one feeding of a reply payload does, as a relation over the parse
/// outcome: a payload that parses leaves the history alone and answers with
/// the classified suggestions; one that does not parse is recorded and
/// answers nothing.
pub open spec fn feed_step(
    h0: Seq<Seq<char>>,
    payload: Seq<char>,
    parsed: Option<Seq<OptionModel>>,
    h1: Seq<Seq<char>>,
    reply: Option<Seq<ResponseType>>,
) -> bool {
    match parsed {
        Some(models) => h1 == h0 && (reply matches Some(v) && classified_all(models, v)),
        None => h1 == h0.push(payload) && reply is None,
    }
}

/// The view of an optional reply vector.
pub open spec fn reply_view(r: Option<Vec<ResponseType>>) -> Option<Seq<ResponseType>> {
    match r {
        Some(v) => Some(v@),
        None => None,
    }
}

impl RetrySession {
    /// The recorded failed replies, oldest first.
    pub closed spec fn history(&self) -> Seq<Seq<char>> {
        self.failed@.map_values(|s: String| s@)
    }

    /// The attempt counter always matches the recorded history, which never
    /// exceeds the attempt bound.
    pub closed spec fn wf(&self) -> bool {
        self.attempts == self.history().len() && self.attempts <= MAX_ATTEMPTS
    }

    /// A fresh session: no attempts made, nothing recorded.
    pub fn new() -> (s: Self)
        ensures
            s.wf(),
            s.history() == Seq::<Seq<char>>::empty(),
    {
        let s = RetrySession { attempts: 0, failed: Vec::new() };
        proof {
            assert(s.history() =~= Seq::<Seq<char>>::empty());
        }
        s
    }

    /// Whether every attempt has been spent.
    pub fn exhausted(&self) -> (b: bool)
        requires
            self.wf(),
        ensures
            b == (self.history().len() >= MAX_ATTEMPTS),
    {
        self.attempts >= MAX_ATTEMPTS
    }

    /// How many attempts have failed so far.
    pub fn attempts_made(&self) -> (n: usize)
        requires
            self.wf(),
        ensures
            n == self.history().len(),
    {
        self.attempts
    }

    /// The failed replies, for listing in the next prompt.
    pub fn failures(&self) -> (v: &Vec<String>)
        ensures
            v@.map_values(|s: String| s@) == self.history(),
    {
        &self.failed
    }

    /// Feeds one reply payload and hands back the parsed, still unclassified
    /// suggestions; a payload that does not parse is recorded instead.
    pub fn feed_options(&mut self, payload: String) -> (r: Option<Vec<CommandOption>>)
        requires
            old(self).wf(),
            old(self).history().len() < MAX_ATTEMPTS,
        ensures
            final(self).wf(),
            match repaired_models(payload@) {
                Some(models) => r matches Some(v) && option_views(v@) == models && v@.len() > 0
                    && *final(self) == *old(self),
                None => r is None && final(self).history() == old(self).history().push(payload@),
            },
    {
        match parse_options(payload.as_str()) {
            Some(options) => Some(options),
            None => {
                self.failed.push(payload);
                self.attempts = self.attempts + 1;
                proof {
                    assert(final(self).history() =~= old(self).history().push(payload@));
                }
                None
            },
        }
    }

    /// Feeds one reply payload, classifying what parses: one step of the
    /// retry protocol, exactly as [`feed_step`] states over the parse
    /// outcome of the payload.
    pub fn feed(&mut self, payload: String) -> (r: Option<Vec<ResponseType>>)
        requires
            old(self).wf(),
            old(self).history().len() < MAX_ATTEMPTS,
        ensures
            final(self).wf(),
            feed_step(
                old(self).history(),
                payload@,
                repaired_models(payload@),
                final(self).history(),
                reply_view(r),
            ),
            r matches Some(v) ==> v@.len() > 0,
    {
        let ghost parsed = repaired_models(payload@);
        match self.feed_options(payload) {
            Some(options) => {
                let classified = classify_all(options);
                proof {
                    assert(classified_all(parsed->Some_0, classified@));
                }
                Some(classified)
            },
            None => None,
        }
    }
}

proof fn lemma_failed_prefix(
    ps: Seq<Seq<char>>,
    hs: Seq<Seq<Seq<char>>>,
    rs: Seq<Option<Seq<ResponseType>>>,
    k: int,
)
    requires
        hs.len() == ps.len() + 1,
        rs.len() == ps.len(),
        hs[0] == Seq::<Seq<char>>::empty(),
        forall|i: int|
            0 <= i < ps.len() ==> feed_step(#[trigger] hs[i], ps[i], None, hs[i + 1], rs[i]),
        0 <= k <= ps.len(),
    ensures
        hs[k] =~= ps.take(k),
    decreases k,
{
    if k > 0 {
        lemma_failed_prefix(ps, hs, rs, k - 1);
        assert(feed_step(hs[k - 1], ps[k - 1], None, hs[k], rs[k - 1]));
        assert(ps.take(k - 1).push(ps[k - 1]) =~= ps.take(k));
    } else {
        assert(ps.take(0) =~= Seq::<Seq<char>>::empty());
    }
}

/// The retry loop terminates against a backend that never complies: five
/// replies that all fail to parse spend all five attempts, produce no reply
/// on the way, and leave exactly the five payloads recorded in order — the
/// state on which a driver answers with its single advisory result.
pub proof fn lemma_retry_exhaustion(
    ps: Seq<Seq<char>>,
    hs: Seq<Seq<Seq<char>>>,
    rs: Seq<Option<Seq<ResponseType>>>,
)
    requires
        ps.len() == MAX_ATTEMPTS,
        hs.len() == MAX_ATTEMPTS + 1,
        rs.len() == MAX_ATTEMPTS,
        hs[0] == Seq::<Seq<char>>::empty(),
        forall|i: int|
            0 <= i < ps.len() ==> feed_step(#[trigger] hs[i], ps[i], None, hs[i + 1], rs[i]),
    ensures
        hs[MAX_ATTEMPTS as int] == ps,
        hs[MAX_ATTEMPTS as int].len() == MAX_ATTEMPTS,
        forall|i: int| 0 <= i < rs.len() ==> rs[i] is None,
{
    lemma_failed_prefix(ps, hs, rs, MAX_ATTEMPTS as int);
    assert(ps.take(MAX_ATTEMPTS as int) =~= ps);
    assert forall|i: int| 0 <= i < rs.len() implies rs[i] is None by {
        assert(feed_step(hs[i], ps[i], None, hs[i + 1], rs[i]));
    }
}

/// Recovery on the second attempt: when the first reply fails to parse and
/// the second parses to a single suggestion of confidence at least 0.80, the
/// history carried into the second attempt holds exactly the first reply
/// verbatim, and the second attempt answers with the one `Command` wrapping
/// that suggestion.
pub proof fn lemma_retry_recovery(
    first_reply: Seq<char>,
    second_reply: Seq<char>,
    m: OptionModel,
    h1: Seq<Seq<char>>,
    h2: Seq<Seq<char>>,
    r1: Option<Seq<ResponseType>>,
    r2: Option<Seq<ResponseType>>,
)
    requires
        feed_step(Seq::<Seq<char>>::empty(), first_reply, None, h1, r1),
        feed_step(h1, second_reply, Some(seq![m]), h2, r2),
        m.confidence >= COMMAND_THRESHOLD,
    ensures
        r1 is None,
        h1 =~= seq![first_reply],
        h2 == h1,
        r2 matches Some(v) && v.len() == 1,
        r2 matches Some(v) ==> (v[0] matches ResponseType::Command(o) && o@ == m),
{
    assert(Seq::<Seq<char>>::empty().push(first_reply) =~= seq![first_reply]);
}

} // verus!
