//! Pacing the collector on a cron cadence.
//!
//! The scheduler holds the cron expression for one subject. A surrounding loop
//! ticks it with the current time: a tick fires exactly when the armed fire
//! time has been reached, and every fire (and the very first tick, which only
//! arms the scheduler) re-arms it with the expression's next fire time after
//! that instant, always strictly in the future. The poll that a fire triggers
//! happens outside the scheduler, so its outcome — success or failure — cannot
//! disturb the cadence.
//!
//! An expression is screened before the cron parser sees it: a step of zero
//! (as in `0/0 * * * * *`, with or without whitespace after the slash, which
//! the parser's number reader skips) makes the parser's ordinal expansion
//! panic on a stride of nought, so such an expression is rejected here as the
//! fatal startup error it is.

use vstd::prelude::*;

use crate::config::ConfigError;
use crate::exposition::push_chars;

verus! {

/// What to poll and when: a cron expression and the subject it paces.
pub struct ScheduleSpec {
    pub cron: String,
    pub subject: String,
}

/// Ticks beyond this instant (far past the last year a cron schedule can
/// name) are out of range: the date arithmetic behind the fire-time lookup
/// cannot represent them.
pub const MAX_TICK_MILLIS: u64 = 8_000_000_000_000_000;

/// One decimal digit, as the cron parser reads numbers.
pub open spec fn is_dec_digit(c: char) -> bool {
    c == '0' || c == '1' || c == '2' || c == '3' || c == '4' || c == '5' || c == '6' || c == '7'
        || c == '8' || c == '9'
}

/// A whitespace character that the parser's number reader skips before the
/// digits of a step.
pub open spec fn is_cron_space(c: char) -> bool {
    c == ' ' || c == '\t' || c == '\r' || c == '\n'
}

/// After the slash at `i`, whitespace runs up to `d`, and from `d` to `e`
/// stands the whole digit run of the step, every digit a zero: the parser
/// would read a step of nought there.
pub open spec fn zero_step_at(s: Seq<char>, i: int, d: int, e: int) -> bool {
    &&& 0 <= i
    &&& i < d < e <= s.len()
    &&& s[i] == '/'
    &&& (forall|j: int| i < j < d ==> is_cron_space(s[j]))
    &&& (forall|j: int| d <= j < e ==> s[j] == '0')
    &&& (e == s.len() || !is_dec_digit(s[e]))
}

/// Whether some field of the expression carries a step of zero.
pub open spec fn has_zero_step(s: Seq<char>) -> bool {
    exists|i: int, d: int, e: int| zero_step_at(s, i, d, e)
}

/// Whether the cron parser accepts an expression without a zero step.
/// Acceptance depends on the characters of the expression alone.
pub uninterp spec fn cron_accepts(s: Seq<char>) -> bool;

/// The expression's first fire time strictly after an instant, in
/// milliseconds, or nothing: for an expression the parser rejects, a schedule
/// with no further fire time, or an instant its dates cannot hold. The search
/// runs in universal time, so the result depends on the expression's
/// characters and the instant alone.
pub uninterp spec fn next_fire_of(cron: Seq<char>, now_millis: u64) -> Option<u64>;

/// Decides `is_dec_digit`.
fn is_dec_digit_char(c: char) -> (r: bool)
    ensures
        r == is_dec_digit(c),
{
    c == '0' || c == '1' || c == '2' || c == '3' || c == '4' || c == '5' || c == '6' || c == '7'
        || c == '8' || c == '9'
}

/// Decides `is_cron_space`.
fn is_cron_space_char(c: char) -> (r: bool)
    ensures
        r == is_cron_space(c),
{
    c == ' ' || c == '\t' || c == '\r' || c == '\n'
}

/// Scans an expression for a step of zero.
fn scan_zero_step(v: &Vec<char>) -> (r: bool)
    ensures
        r == has_zero_step(v@),
{
    let n = v.len();
    let mut i: usize = 0;
    while i < n
        invariant
            n == v@.len(),
            0 <= i <= n,
            forall|a: int, d: int, e: int| a < i ==> !zero_step_at(v@, a, d, e),
        decreases n - i,
    {
        if v[i] == '/' {
            let mut j: usize = i + 1;
            while j < n && is_cron_space_char(v[j])
                invariant
                    n == v@.len(),
                    i < n,
                    i + 1 <= j <= n,
                    v@[i as int] == '/',
                    forall|k: int| i < k < j ==> is_cron_space(#[trigger] v@[k]),
                decreases n - j,
            {
                j = j + 1;
            }
            let start = j;
            let mut allzero: bool = true;
            while j < n && is_dec_digit_char(v[j])
                invariant
                    n == v@.len(),
                    i < n,
                    i < start <= j <= n,
                    v@[i as int] == '/',
                    start == n || !is_cron_space(v@[start as int]),
                    forall|k: int| i < k < start ==> is_cron_space(#[trigger] v@[k]),
                    forall|k: int| start <= k < j ==> is_dec_digit(#[trigger] v@[k]),
                    allzero <==> (forall|k: int| start <= k < j ==> #[trigger] v@[k] == '0'),
                decreases n - j,
            {
                if v[j] != '0' {
                    allzero = false;
                }
                j = j + 1;
            }
            if allzero && j > start {
                proof {
                    assert(zero_step_at(v@, i as int, start as int, j as int));
                }
                return true;
            }
            proof {
                assert forall|d: int, e: int| !zero_step_at(v@, i as int, d, e) by {
                    if zero_step_at(v@, i as int, d, e) {
                        assert(v@[d] == '0');
                        if d < start as int {
                            assert(is_cron_space(v@[d]));
                        } else if d > start as int {
                            assert(start < n);
                            assert(is_cron_space(v@[start as int]));
                        } else {
                            if e < j as int {
                                assert(v@[e] == '0');
                                assert(is_dec_digit(v@[e]));
                            } else if e > j as int {
                                assert(j < n);
                                assert(v@[j as int] == '0');
                                assert(is_dec_digit(v@[j as int]));
                            } else {
                                assert(allzero);
                            }
                        }
                    }
                }
            }
        } else {
            proof {
                assert forall|d: int, e: int| !zero_step_at(v@, i as int, d, e) by {}
            }
        }
        i = i + 1;
    }
    proof {
        if has_zero_step(v@) {
            let (a, d, e) = choose|a: int, d: int, e: int| zero_step_at(v@, a, d, e);
            assert(a < n);
        }
    }
    false
}

/// Relies on `job_scheduler::Schedule`'s `FromStr` (the `cron` crate's
/// parser): it accepts or rejects on the expression's characters alone, and
/// its error carries the parser's message. Expressions with a step of zero
/// are kept out: the parser's ordinal expansion panics on a stride of nought.
#[verifier::external_body]
fn parse_cron(s: &str) -> (r: Result<(), String>)
    requires
        !has_zero_step(s@),
    ensures
        r is Ok <==> cron_accepts(s@),
{
    match s.parse::<job_scheduler::Schedule>() {
        Ok(_) => Ok(()),
        Err(e) => Err(format!("{}", e)),
    }
}

/// Relies on `job_scheduler::Schedule`'s `FromStr` and `cron`'s
/// `Schedule::after`: the fire-time candidates are whole seconds strictly
/// after the given instant, searched in universal time, so the result is a
/// function of the expression and the instant alone, and a returned time
/// exceeds `now_millis`. Expressions with a step of zero are kept out, as in
/// the parsing wrapper (the parser's ordinal expansion panics on a stride of
/// nought); the instant bound keeps clear of the range edge of the date
/// arithmetic.
#[verifier::external_body]
fn next_fire_from(cron: &str, now_millis: u64) -> (r: Option<u64>)
    requires
        !has_zero_step(cron@),
        now_millis < MAX_TICK_MILLIS,
    ensures
        r == next_fire_of(cron@, now_millis),
        r is Some ==> r->Some_0 > now_millis,
{
    let schedule = cron.parse::<job_scheduler::Schedule>().ok()?;
    let now = i64::try_from(now_millis).ok()?;
    let dt = chrono::DateTime::from_timestamp_millis(now)?;
    schedule.after(&dt).next().and_then(|next| u64::try_from(next.timestamp_millis()).ok())
}

/// The polling pacer for one subject.
pub struct Scheduler {
    cron: String,
    subject: String,
    next_fire: Option<u64>,
}

impl Scheduler {
    /// The cron expression this scheduler paces.
    pub closed spec fn spec_cron(&self) -> Seq<char> {
        self.cron@
    }

    /// The subject this scheduler polls.
    pub closed spec fn spec_subject(&self) -> Seq<char> {
        self.subject@
    }

    /// The armed fire time in milliseconds, once the first tick has armed it.
    pub closed spec fn spec_next_fire(&self) -> Option<u64> {
        self.next_fire
    }

    /// A scheduler in use never holds an expression with a step of zero.
    pub open spec fn wf(&self) -> bool {
        !has_zero_step(self.spec_cron())
    }

    /// Screens and validates the cron expression and builds the scheduler,
    /// unarmed. Fails exactly when the expression carries a step of zero or
    /// the parser rejects it: a fatal startup error either way.
    pub fn new(sched: &ScheduleSpec) -> (r: Result<Scheduler, ConfigError>)
        ensures
            r is Ok <==> (!has_zero_step(sched.cron@) && cron_accepts(sched.cron@)),
            r is Ok ==> r->Ok_0.wf(),
            r is Ok ==> r->Ok_0.spec_cron() == sched.cron@,
            r is Ok ==> r->Ok_0.spec_subject() == sched.subject@,
            r is Ok ==> r->Ok_0.spec_next_fire() is None,
    {
        let mut chars: Vec<char> = Vec::new();
        push_chars(&mut chars, sched.cron.as_str());
        if scan_zero_step(&chars) {
            return Err(
                ConfigError::InvalidCron {
                    detail: "the cron expression names a step of zero".to_owned(),
                },
            );
        }
        match parse_cron(sched.cron.as_str()) {
            Ok(()) => Ok(
                Scheduler {
                    cron: sched.cron.clone(),
                    subject: sched.subject.clone(),
                    next_fire: None,
                },
            ),
            Err(detail) => Err(ConfigError::InvalidCron { detail }),
        }
    }

    /// Reads the subject this scheduler polls.
    pub fn subject(&self) -> (r: &String)
        ensures
            r@ == self.spec_subject(),
    {
        &self.subject
    }

    /// One tick of the pacing loop, at the current time in milliseconds.
    ///
    /// The tick fires exactly when an armed fire time has been reached. A fire
    /// — and the first tick, which only arms the scheduler — re-arms it with
    /// the expression's next fire time after this instant, strictly in the
    /// future when the schedule has one; a tick that neither fires nor arms
    /// changes nothing. The expression and the subject never change.
    pub fn tick(&mut self, now_millis: u64) -> (fire: bool)
        requires
            old(self).wf(),
            now_millis < MAX_TICK_MILLIS,
        ensures
            final(self).wf(),
            fire == (old(self).spec_next_fire() is Some && old(self).spec_next_fire()->Some_0
                <= now_millis),
            final(self).spec_cron() == old(self).spec_cron(),
            final(self).spec_subject() == old(self).spec_subject(),
            (fire || old(self).spec_next_fire() is None) ==> final(self).spec_next_fire()
                == next_fire_of(old(self).spec_cron(), now_millis),
            (fire || old(self).spec_next_fire() is None) ==> (final(self).spec_next_fire() is Some
                ==> final(self).spec_next_fire()->Some_0 > now_millis),
            (!fire && old(self).spec_next_fire() is Some) ==> final(self).spec_next_fire() == old(
                self,
            ).spec_next_fire(),
    {
        let due = match self.next_fire {
            Some(t) => t <= now_millis,
            None => false,
        };
        let armed = self.next_fire.is_some();
        if due || !armed {
            let rearmed = next_fire_from(self.cron.as_str(), now_millis);
            self.next_fire = rearmed;
        }
        due
    }
}

} // verus!
