//! The process-wide store of labeled gauge values.
//!
//! The registry maps a subject to the five statistics of its latest successful
//! poll. The five values of one poll always enter the registry together, as one
//! grouped update, so a snapshot never mixes values of two polls for the same
//! subject.

use vstd::prelude::*;

verus! {

/// The property names of the gauge family, one per statistic of a poll.
#[derive(Clone, Copy, Debug, PartialEq, Eq, Structural)]
pub enum Property {
    Tweet,
    Fav,
    Following,
    Followers,
    Listed,
}

/// The label text of a property, as it appears in the exposition output.
pub open spec fn property_label(p: Property) -> Seq<char> {
    match p {
        Property::Tweet => "tweet"@,
        Property::Fav => "fav"@,
        Property::Following => "following"@,
        Property::Followers => "followers"@,
        Property::Listed => "listed"@,
    }
}

impl Property {
    /// The label of this property.
    pub fn label(self) -> (r: &'static str)
        ensures
            r@ == property_label(self),
    {
        match self {
            Property::Tweet => "tweet",
            Property::Fav => "fav",
            Property::Following => "following",
            Property::Followers => "followers",
            Property::Listed => "listed",
        }
    }
}

/// The five statistics that one successful poll returns for a subject.
#[derive(Clone, Copy, Debug, PartialEq, Eq, Structural)]
pub struct PollStats {
    pub tweet: i64,
    pub fav: i64,
    pub following: i64,
    pub followers: i64,
    pub listed: i64,
}

impl PollStats {
    /// The value of one property.
    pub open spec fn spec_value_of(self, p: Property) -> i64 {
        match p {
            Property::Tweet => self.tweet,
            Property::Fav => self.fav,
            Property::Following => self.following,
            Property::Followers => self.followers,
            Property::Listed => self.listed,
        }
    }

    /// Reads the value of one property.
    pub fn value_of(&self, p: Property) -> (r: i64)
        ensures
            r == self.spec_value_of(p),
    {
        match p {
            Property::Tweet => self.tweet,
            Property::Fav => self.fav,
            Property::Following => self.following,
            Property::Followers => self.followers,
            Property::Listed => self.listed,
        }
    }
}

/// One current gauge entry: a subject, a property, and the latest value.
pub struct MetricSample {
    pub subject: String,
    pub property: Property,
    pub value: i64,
}

impl View for MetricSample {
    type V = (Seq<char>, Property, i64);

    open spec fn view(&self) -> (Seq<char>, Property, i64) {
        (self.subject@, self.property, self.value)
    }
}

/// No two entries of the registry name the same subject.
pub open spec fn distinct_subjects(v: Seq<(Seq<char>, PollStats)>) -> bool {
    forall|i: int, j: int| 0 <= i < j < v.len() ==> (#[trigger] v[i]).0 != (#[trigger] v[j]).0
}

/// Whether some entry names the subject `s`.
pub open spec fn has_group(v: Seq<(Seq<char>, PollStats)>, s: Seq<char>) -> bool {
    exists|i: int| 0 <= i < v.len() && (#[trigger] v[i]).0 == s
}

/// The index of the entry that names the subject `s`.
pub open spec fn group_index(v: Seq<(Seq<char>, PollStats)>, s: Seq<char>) -> int {
    choose|i: int| 0 <= i < v.len() && (#[trigger] v[i]).0 == s
}

/// The stats currently recorded for the subject `s`, if any.
pub open spec fn stats_in(v: Seq<(Seq<char>, PollStats)>, s: Seq<char>) -> Option<PollStats> {
    if has_group(v, s) {
        Some(v[group_index(v, s)].1)
    } else {
        None
    }
}

/// The registry contents after one grouped update: the subject's entry is
/// replaced in place if present, appended otherwise.
pub open spec fn with_group(
    v: Seq<(Seq<char>, PollStats)>,
    s: Seq<char>,
    st: PollStats,
) -> Seq<(Seq<char>, PollStats)> {
    if has_group(v, s) {
        v.update(group_index(v, s), (s, st))
    } else {
        v.push((s, st))
    }
}

/// When subjects are distinct, the entry that names `s` is the one at `i`.
pub proof fn lemma_group_index_unique(v: Seq<(Seq<char>, PollStats)>, s: Seq<char>, i: int)
    requires
        distinct_subjects(v),
        0 <= i < v.len(),
        v[i].0 == s,
    ensures
        has_group(v, s),
        group_index(v, s) == i,
{
    assert(has_group(v, s));
    let j = group_index(v, s);
    assert(0 <= j < v.len() && v[j].0 == s);
    if j != i {
        if j < i {
            assert(v[j].0 != v[i].0);
        } else {
            assert(v[i].0 != v[j].0);
        }
    }
}

/// The store of current gauge values, keyed by subject.
pub struct MetricRegistry {
    entries: Vec<(String, PollStats)>,
}

impl View for MetricRegistry {
    type V = Seq<(Seq<char>, PollStats)>;

    closed spec fn view(&self) -> Seq<(Seq<char>, PollStats)> {
        self.entries@.map_values(|e: (String, PollStats)| (e.0@, e.1))
    }
}

impl MetricRegistry {
    /// Every registry in use keeps its subjects distinct.
    pub open spec fn wf(&self) -> bool {
        distinct_subjects(self@)
    }

    /// Creates an empty registry.
    pub fn new() -> (r: MetricRegistry)
        ensures
            r@ == Seq::<(Seq<char>, PollStats)>::empty(),
            r.wf(),
    {
        let r = MetricRegistry { entries: Vec::new() };
        proof {
            assert(r@ =~~= Seq::<(Seq<char>, PollStats)>::empty());
        }
        r
    }

    /// Finds the entry that names the subject, if any.
    fn find_index(&self, subject: &String) -> (r: Option<usize>)
        requires
            self.wf(),
        ensures
            match r {
                Some(i) => has_group(self@, subject@) && group_index(self@, subject@) == i as int
                    && i < self@.len(),
                None => !has_group(self@, subject@),
            },
    {
        let n = self.entries.len();
        let mut i: usize = 0;
        let mut r: Option<usize> = None;
        while i < n && r.is_none()
            invariant
                n == self@.len(),
                0 <= i <= n,
                self.wf(),
                self.entries@.len() == n,
                match r {
                    Some(j) => j < n && self@[j as int].0 == subject@,
                    None => forall|k: int| 0 <= k < i ==> (#[trigger] self@[k]).0 != subject@,
                },
                r is None || i == n,
            decreases n - i,
        {
            let found = self.entries[i].0 == *subject;
            if found {
                r = Some(i);
                i = n;
            } else {
                i = i + 1;
            }
        }
        proof {
            match r {
                Some(j) => {
                    lemma_group_index_unique(self@, subject@, j as int);
                },
                None => {
                    if has_group(self@, subject@) {
                        let j = group_index(self@, subject@);
                        assert(self@[j].0 != subject@);
                    }
                },
            }
        }
        r
    }

    /// Overwrites the five values of one subject as a single grouped update.
    /// Every other subject's entry is untouched.
    pub fn set_group(&mut self, subject: &String, stats: PollStats)
        requires
            old(self).wf(),
        ensures
            final(self).wf(),
            final(self)@ == with_group(old(self)@, subject@, stats),
    {
        let ghost v0 = self@;
        match self.find_index(subject) {
            Some(i) => {
                self.entries[i] = (subject.clone(), stats);
                proof {
                    assert(self@ =~~= v0.update(i as int, (subject@, stats)));
                    assert forall|a: int, b: int| 0 <= a < b < self@.len() implies (
                    #[trigger] self@[a]).0 != (#[trigger] self@[b]).0 by {
                        assert(v0[a].0 != v0[b].0);
                    }
                }
            },
            None => {
                self.entries.push((subject.clone(), stats));
                proof {
                    assert(self@ =~~= v0.push((subject@, stats)));
                    assert forall|a: int, b: int| 0 <= a < b < self@.len() implies (
                    #[trigger] self@[a]).0 != (#[trigger] self@[b]).0 by {
                        if b < v0.len() {
                            assert(v0[a].0 != v0[b].0);
                        } else {
                            assert(v0[a].0 != subject@);
                        }
                    }
                }
            },
        }
    }

    /// Reads the current stats of one subject.
    pub fn get_group(&self, subject: &String) -> (r: Option<PollStats>)
        requires
            self.wf(),
        ensures
            r == stats_in(self@, subject@),
    {
        match self.find_index(subject) {
            Some(i) => Some(self.entries[i].1),
            None => None,
        }
    }

    /// The number of subjects currently recorded.
    pub fn len(&self) -> (r: usize)
        ensures
            r == self@.len(),
    {
        self.entries.len()
    }

    /// Takes a consistent snapshot: every current (subject, property, value)
    /// triple, entry by entry, each entry's five properties in the fixed
    /// order.
    pub fn snapshot(&self) -> (r: Vec<MetricSample>)
        ensures
            r@.map_values(|m: MetricSample| m@) == snapshot_model(self@),
    {
        let mut out: Vec<MetricSample> = Vec::new();
        let n = self.entries.len();
        let mut i: usize = 0;
        while i < n
            invariant
                n == self@.len(),
                self.entries@.len() == n,
                0 <= i <= n,
                out@.map_values(|m: MetricSample| m@) == snapshot_model(self@.take(i as int)),
            decreases n - i,
        {
            let subject = &self.entries[i].0;
            let st = self.entries[i].1;
            out.push(
                MetricSample { subject: subject.clone(), property: Property::Tweet, value: st.tweet },
            );
            out.push(
                MetricSample { subject: subject.clone(), property: Property::Fav, value: st.fav },
            );
            out.push(
                MetricSample {
                    subject: subject.clone(),
                    property: Property::Following,
                    value: st.following,
                },
            );
            out.push(
                MetricSample {
                    subject: subject.clone(),
                    property: Property::Followers,
                    value: st.followers,
                },
            );
            out.push(
                MetricSample {
                    subject: subject.clone(),
                    property: Property::Listed,
                    value: st.listed,
                },
            );
            proof {
                assert(self@.take(i as int + 1).drop_last() =~~= self@.take(i as int));
                assert(self@.take(i as int + 1).last() == self@[i as int]);
                assert(out@.map_values(|m: MetricSample| m@) =~~= snapshot_model(
                    self@.take(i as int),
                ) + group_samples(self@[i as int].0, self@[i as int].1));
            }
            i = i + 1;
        }
        proof {
            assert(self@.take(n as int) =~~= self@);
        }
        out
    }
}

/// The five samples of one registry entry, in the fixed property order.
pub open spec fn group_samples(s: Seq<char>, st: PollStats) -> Seq<(Seq<char>, Property, i64)> {
    seq![
        (s, Property::Tweet, st.tweet),
        (s, Property::Fav, st.fav),
        (s, Property::Following, st.following),
        (s, Property::Followers, st.followers),
        (s, Property::Listed, st.listed),
    ]
}

/// All samples of a registry, entry by entry.
pub open spec fn snapshot_model(v: Seq<(Seq<char>, PollStats)>) -> Seq<(Seq<char>, Property, i64)>
    decreases v.len(),
{
    if v.len() == 0 {
        Seq::empty()
    } else {
        snapshot_model(v.drop_last()) + group_samples(v.last().0, v.last().1)
    }
}

/// A grouped update is atomic with respect to the mapping the registry
/// presents: afterwards every subject shows either its complete old group of
/// five values or, for the updated subject alone, the complete new group —
/// never a mixture of the two.
pub proof fn lemma_group_update_atomic(
    v: Seq<(Seq<char>, PollStats)>,
    s: Seq<char>,
    st: PollStats,
)
    requires
        distinct_subjects(v),
    ensures
        distinct_subjects(with_group(v, s, st)),
        stats_in(with_group(v, s, st), s) == Some(st),
        forall|t: Seq<char>| t != s ==> #[trigger] stats_in(with_group(v, s, st), t) == stats_in(
            v,
            t,
        ),
{
    let w = with_group(v, s, st);
    if has_group(v, s) {
        let i = group_index(v, s);
        assert(0 <= i < v.len() && v[i].0 == s);
        assert(w == v.update(i, (s, st)));
        assert forall|a: int, b: int| 0 <= a < b < w.len() implies (#[trigger] w[a]).0 != (
        #[trigger] w[b]).0 by {
            assert(v[a].0 != v[b].0);
        }
        lemma_group_index_unique(w, s, i);
        assert forall|t: Seq<char>| t != s implies #[trigger] stats_in(w, t) == stats_in(v, t) by {
            if has_group(v, t) {
                let j = group_index(v, t);
                assert(v[j].0 == t);
                assert(j != i);
                assert(w[j].0 == t);
                lemma_group_index_unique(w, t, j);
            } else {
                if has_group(w, t) {
                    let j = group_index(w, t);
                    assert(w[j].0 == t);
                    assert(j != i);
                    assert(v[j].0 == t);
                }
            }
        }
    } else {
        let i = v.len() as int;
        assert(w == v.push((s, st)));
        assert forall|k: int| 0 <= k < v.len() implies (#[trigger] v[k]).0 != s by {
            if v[k].0 == s {
                assert(has_group(v, s));
            }
        }
        assert forall|a: int, b: int| 0 <= a < b < w.len() implies (#[trigger] w[a]).0 != (
        #[trigger] w[b]).0 by {
            if b < v.len() {
                assert(v[a].0 != v[b].0);
            } else {
                assert(w[a] == v[a]);
                assert(v[a].0 != s);
            }
        }
        assert(w[i].0 == s);
        lemma_group_index_unique(w, s, i);
        assert forall|t: Seq<char>| t != s implies #[trigger] stats_in(w, t) == stats_in(v, t) by {
            if has_group(v, t) {
                let j = group_index(v, t);
                assert(v[j].0 == t);
                assert(w[j].0 == t);
                lemma_group_index_unique(w, t, j);
            } else {
                if has_group(w, t) {
                    let j = group_index(w, t);
                    assert(w[j].0 == t);
                    assert(j != i);
                    assert(v[j].0 == t);
                }
            }
        }
    }
}

} // verus!
