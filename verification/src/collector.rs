//! Folding a poll outcome into the registry.
//!
//! One poll of the remote statistics API either yields the five statistics of
//! the subject or fails. A successful poll replaces the subject's whole group
//! of values; a failed poll leaves the registry exactly as it was, so stale
//! values stay available and the next cycle proceeds on the usual cadence.

use vstd::prelude::*;

use crate::registry::{
    distinct_subjects,
    stats_in,
    with_group,
    lemma_group_update_atomic,
    MetricRegistry,
    PollStats,
};

verus! {

/// Why one poll cycle failed. A failure of any kind abandons the cycle and is
/// never allowed to grow into a process-terminating condition.
#[derive(Clone, Copy, Debug, PartialEq, Eq, Structural)]
pub enum PollError {
    /// The remote endpoint could not be reached.
    Network,
    /// The credentials were rejected.
    Auth,
    /// The remote endpoint refused the call for rate reasons.
    RateLimit,
    /// The response could not be read as the five statistics.
    MalformedResponse,
}

/// What one poll cycle produced: the subject's five statistics, or a failure.
#[derive(Clone, Copy, Debug, PartialEq, Eq, Structural)]
pub enum PollOutcome {
    Success(PollStats),
    Failure(PollError),
}

impl PollStats {
    /// Widens the five raw counts of a poll response into gauge values.
    pub fn from_counts(
        statuses: i32,
        favourites: i32,
        friends: i32,
        followers: i32,
        listed: i32,
    ) -> (r: PollStats)
        ensures
            r == (PollStats {
                tweet: statuses as i64,
                fav: favourites as i64,
                following: friends as i64,
                followers: followers as i64,
                listed: listed as i64,
            }),
    {
        PollStats {
            tweet: statuses as i64,
            fav: favourites as i64,
            following: friends as i64,
            followers: followers as i64,
            listed: listed as i64,
        }
    }
}

/// Folds one poll outcome into the registry: a success overwrites the
/// subject's whole group in one step, a failure changes nothing at all.
pub fn record_outcome(reg: &mut MetricRegistry, subject: &String, outcome: &PollOutcome)
    requires
        old(reg).wf(),
    ensures
        final(reg).wf(),
        outcome is Success ==> final(reg)@ == with_group(old(reg)@, subject@, outcome->Success_0),
        outcome is Failure ==> final(reg)@ == old(reg)@,
{
    match outcome {
        PollOutcome::Success(stats) => {
            reg.set_group(subject, *stats);
        },
        PollOutcome::Failure(_) => {},
    }
}

/// A sequence of successful polls, each a subject with the five statistics
/// that its poll returned.
pub open spec fn apply_polls(
    v: Seq<(Seq<char>, PollStats)>,
    polls: Seq<(Seq<char>, PollStats)>,
) -> Seq<(Seq<char>, PollStats)>
    decreases polls.len(),
{
    if polls.len() == 0 {
        v
    } else {
        with_group(apply_polls(v, polls.drop_last()), polls.last().0, polls.last().1)
    }
}

/// Each grouped update keeps the registry's subjects distinct, so a whole
/// sequence of polls does too.
pub proof fn lemma_apply_polls_distinct(
    v: Seq<(Seq<char>, PollStats)>,
    polls: Seq<(Seq<char>, PollStats)>,
)
    requires
        distinct_subjects(v),
    ensures
        distinct_subjects(apply_polls(v, polls)),
    decreases polls.len(),
{
    if polls.len() > 0 {
        lemma_apply_polls_distinct(v, polls.drop_last());
        lemma_group_update_atomic(
            apply_polls(v, polls.drop_last()),
            polls.last().0,
            polls.last().1,
        );
    }
}

/// After any sequence of successful polls, the registry holds for the subject
/// of the latest poll exactly the five values that this poll returned: no
/// value of an earlier poll survives for it, whatever the registry held
/// before.
pub proof fn lemma_snapshot_reflects_last_poll(
    v: Seq<(Seq<char>, PollStats)>,
    polls: Seq<(Seq<char>, PollStats)>,
)
    requires
        distinct_subjects(v),
        polls.len() > 0,
    ensures
        stats_in(apply_polls(v, polls), polls.last().0) == Some(polls.last().1),
{
    lemma_apply_polls_distinct(v, polls.drop_last());
    lemma_group_update_atomic(apply_polls(v, polls.drop_last()), polls.last().0, polls.last().1);
}

/// A poll for one subject never touches what the registry reports for any
/// other subject.
pub proof fn lemma_poll_isolated(
    v: Seq<(Seq<char>, PollStats)>,
    s: Seq<char>,
    st: PollStats,
    t: Seq<char>,
)
    requires
        distinct_subjects(v),
        t != s,
    ensures
        stats_in(with_group(v, s, st), t) == stats_in(v, t),
{
    lemma_group_update_atomic(v, s, st);
}

} // verus!
