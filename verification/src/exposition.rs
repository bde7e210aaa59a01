//! The text exposition of a registry snapshot.
//!
//! Each scrape serializes the current snapshot into the line-oriented text
//! format of pull-based metrics scrapers: one `# HELP` and one `# TYPE` comment
//! line for the gauge family, then one
//! `twitter_user{screen_name="...",property="..."} value` line per sample. The
//! output is a function of the snapshot alone, so two scrapes with no completed
//! poll in between serve byte-identical bodies. Backslash, quote and newline
//! in a subject are escaped in its label value, as the format asks of label
//! text.

use vstd::prelude::*;

use crate::registry::{
    property_label,
    snapshot_model,
    MetricRegistry,
    MetricSample,
    PollStats,
    Property,
};

verus! {

broadcast use vstd::string::axiom_spec_iter;

/// The character of one decimal digit.
pub open spec fn digit_char(d: int) -> char {
    if d == 0 {
        '0'
    } else if d == 1 {
        '1'
    } else if d == 2 {
        '2'
    } else if d == 3 {
        '3'
    } else if d == 4 {
        '4'
    } else if d == 5 {
        '5'
    } else if d == 6 {
        '6'
    } else if d == 7 {
        '7'
    } else if d == 8 {
        '8'
    } else {
        '9'
    }
}

/// The decimal digits of a natural number, most significant first.
pub open spec fn dec_nat(n: nat) -> Seq<char>
    decreases n,
{
    if n < 10 {
        seq![digit_char(n as int)]
    } else {
        dec_nat(n / 10).push(digit_char((n % 10) as int))
    }
}

/// The decimal text of an integer: a minus sign and the digits of its
/// magnitude, or just the digits.
pub open spec fn dec_int(v: int) -> Seq<char> {
    if v < 0 {
        seq!['-'] + dec_nat((-v) as nat)
    } else {
        dec_nat(v as nat)
    }
}

/// How one character of a label value is written: backslash, quote and
/// newline are escaped, every other character stands as it is.
pub open spec fn escape_char(c: char) -> Seq<char> {
    if c == '\\' {
        seq!['\\', '\\']
    } else if c == '"' {
        seq!['\\', '"']
    } else if c == '\n' {
        seq!['\\', 'n']
    } else {
        seq![c]
    }
}

/// A label value with its special characters escaped.
pub open spec fn escape_label(s: Seq<char>) -> Seq<char>
    decreases s.len(),
{
    if s.len() == 0 {
        Seq::empty()
    } else {
        escape_label(s.drop_last()) + escape_char(s.last())
    }
}

/// The two comment lines that precede the samples of the gauge family.
pub open spec fn header_text() -> Seq<char> {
    "# HELP twitter_user Twitter user info\n"@ + "# TYPE twitter_user gauge\n"@
}

/// The exposition line of one sample.
pub open spec fn sample_line(m: (Seq<char>, Property, i64)) -> Seq<char> {
    "twitter_user{screen_name=\""@ + escape_label(m.0) + "\",property=\""@ + property_label(m.1)
        + "\"} "@ + dec_int(m.2 as int) + "\n"@
}

/// The exposition lines of a snapshot, in snapshot order.
pub open spec fn sample_lines(ms: Seq<(Seq<char>, Property, i64)>) -> Seq<char>
    decreases ms.len(),
{
    if ms.len() == 0 {
        Seq::empty()
    } else {
        sample_lines(ms.drop_last()) + sample_line(ms.last())
    }
}

/// The whole scrape body of a snapshot: nothing when no poll has ever
/// succeeded, otherwise the family's comment lines followed by one line per
/// sample.
pub open spec fn exposition_text(ms: Seq<(Seq<char>, Property, i64)>) -> Seq<char> {
    if ms.len() == 0 {
        Seq::empty()
    } else {
        header_text() + sample_lines(ms)
    }
}

/// Appends one decimal digit.
fn push_digit(out: &mut Vec<char>, d: u64)
    requires
        d < 10,
    ensures
        final(out)@ == old(out)@.push(digit_char(d as int)),
{
    let c: char = if d == 0 {
        '0'
    } else if d == 1 {
        '1'
    } else if d == 2 {
        '2'
    } else if d == 3 {
        '3'
    } else if d == 4 {
        '4'
    } else if d == 5 {
        '5'
    } else if d == 6 {
        '6'
    } else if d == 7 {
        '7'
    } else if d == 8 {
        '8'
    } else {
        '9'
    };
    out.push(c);
}

/// Appends the decimal digits of a natural number.
fn push_dec_u64(out: &mut Vec<char>, n: u64)
    ensures
        final(out)@ == old(out)@ + dec_nat(n as nat),
    decreases n,
{
    let ghost base = out@;
    if n >= 10 {
        push_dec_u64(out, n / 10);
        push_digit(out, n % 10);
        proof {
            assert(out@ =~~= base + dec_nat(n as nat));
        }
    } else {
        push_digit(out, n);
        proof {
            assert(out@ =~~= base + dec_nat(n as nat));
        }
    }
}

/// Appends the decimal text of a gauge value.
fn push_dec_i64(out: &mut Vec<char>, v: i64)
    ensures
        final(out)@ == old(out)@ + dec_int(v as int),
{
    let ghost base = out@;
    if v < 0 {
        out.push('-');
        let mag: u64 = ((-(v + 1)) as u64) + 1;
        proof {
            assert(mag as nat == (-(v as int)) as nat);
        }
        push_dec_u64(out, mag);
        proof {
            assert(out@ =~~= base + dec_int(v as int));
        }
    } else {
        push_dec_u64(out, v as u64);
    }
}

/// Appends the characters of a string slice.
pub(crate) fn push_chars(out: &mut Vec<char>, s: &str)
    ensures
        final(out)@ == old(out)@ + s@,
{
    let ghost base = out@;
    for c in it: s.chars()
        invariant
            it.seq() == s@,
            out@ == base + it.seq().take(it.index() as int),
    {
        out.push(c);
        proof {
            assert(out@ =~~= base + it.seq().take(it.index() as int + 1));
        }
    }
    proof {
        assert(out@ =~~= base + s@);
    }
}

/// Appends a label value, escaping backslash, quote and newline.
fn push_escaped(out: &mut Vec<char>, s: &str)
    ensures
        final(out)@ == old(out)@ + escape_label(s@),
{
    let ghost base = out@;
    for c in it: s.chars()
        invariant
            it.seq() == s@,
            out@ == base + escape_label(it.seq().take(it.index() as int)),
    {
        if c == '\\' {
            out.push('\\');
            out.push('\\');
        } else if c == '"' {
            out.push('\\');
            out.push('"');
        } else if c == '\n' {
            out.push('\\');
            out.push('n');
        } else {
            out.push(c);
        }
        proof {
            assert(it.seq().take(it.index() as int + 1).drop_last() =~~= it.seq().take(
                it.index() as int,
            ));
            assert(out@ =~~= base + escape_label(it.seq().take(it.index() as int + 1)));
        }
    }
    proof {
        assert(s@.take(s@.len() as int) =~~= s@);
        assert(out@ =~~= base + escape_label(s@));
    }
}

/// Turns the collected characters into the response body.
///
/// Relies on `String`'s `FromIterator` over `char`: the string holds exactly
/// the characters handed to it, in order.
#[verifier::external_body]
fn chars_to_string(v: &Vec<char>) -> (r: String)
    ensures
        r@ == v@,
{
    v.iter().collect()
}

/// The content type of a scrape response.
pub fn content_type() -> (r: &'static str)
    ensures
        r@ == "text/plain; version=0.0.4"@,
{
    "text/plain; version=0.0.4"
}

/// Serializes a snapshot into the scrape body.
pub fn render(samples: &Vec<MetricSample>) -> (body: String)
    ensures
        body@ == exposition_text(samples@.map_values(|m: MetricSample| m@)),
{
    let ghost ms = samples@.map_values(|m: MetricSample| m@);
    let mut out: Vec<char> = Vec::new();
    if samples.len() == 0 {
        proof {
            assert(out@ =~~= exposition_text(ms));
        }
        return chars_to_string(&out);
    }
    push_chars(&mut out, "# HELP twitter_user Twitter user info\n");
    push_chars(&mut out, "# TYPE twitter_user gauge\n");
    proof {
        assert(out@ =~~= header_text());
    }
    let n = samples.len();
    let mut i: usize = 0;
    while i < n
        invariant
            n == samples@.len(),
            n > 0,
            0 <= i <= n,
            ms == samples@.map_values(|m: MetricSample| m@),
            ms.len() == n,
            out@ == header_text() + sample_lines(ms.take(i as int)),
        decreases n - i,
    {
        let m = &samples[i];
        push_chars(&mut out, "twitter_user{screen_name=\"");
        push_escaped(&mut out, m.subject.as_str());
        push_chars(&mut out, "\",property=\"");
        push_chars(&mut out, m.property.label());
        push_chars(&mut out, "\"} ");
        push_dec_i64(&mut out, m.value);
        push_chars(&mut out, "\n");
        proof {
            assert(ms.take(i as int + 1).drop_last() =~~= ms.take(i as int));
            assert(ms.take(i as int + 1).last() == ms[i as int]);
            assert(out@ =~~= header_text() + sample_lines(ms.take(i as int + 1)));
        }
        i = i + 1;
    }
    proof {
        assert(ms.take(n as int) =~~= ms);
    }
    chars_to_string(&out)
}

/// Takes a snapshot and serializes it: the whole read path of one scrape.
pub fn scrape(reg: &MetricRegistry) -> (body: String)
    requires
        reg.wf(),
    ensures
        body@ == exposition_text(snapshot_model(reg@)),
{
    let samples = reg.snapshot();
    render(&samples)
}

/// The scrape body is a function of the registry contents alone, so when no
/// poll completes between two scrapes, the two responses are byte-identical.
pub proof fn lemma_scrape_idempotent(
    v1: Seq<(Seq<char>, PollStats)>,
    v2: Seq<(Seq<char>, PollStats)>,
)
    requires
        v1 == v2,
    ensures
        exposition_text(snapshot_model(v1)) == exposition_text(snapshot_model(v2)),
{
}

} // verus!
