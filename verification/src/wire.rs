use vstd::prelude::*;
use vstd::string::*;

use crate::score::{Score, ScoreView, Timestamp};

verus! {

/// The default text rendering of a creation stamp with these seconds and
/// nanoseconds. The rendering is a function of the two numbers alone;
/// nothing further is assumed of it beyond what the trusted wrapper below
/// states.
pub uninterp spec fn timestamp_text(secs: int, nanos: int) -> Seq<char>;

/// Relies on chrono's `DateTime::<Utc>::from_timestamp` and the `Display`
/// impl of `chrono::NaiveDateTime`: for a stamp in the accepted range the
/// conversion returns `Some`, and the rendering (date, a space, time) is a
/// function of the seconds and nanoseconds alone and is never empty.
#[verifier::external_body]
fn timestamp_display(secs: i64, nanos: u32) -> (r: String)
    requires
        0 <= secs <= 253_402_300_799,
        nanos < 1_000_000_000,
    ensures
        r@ == timestamp_text(secs as int, nanos as int),
        r@.len() > 0,
{
    let dt = chrono::DateTime::<chrono::Utc>::from_timestamp(secs, nanos)
        .expect("timestamp within range")
        .naive_utc();
    format!("{}", dt)
}

/// Relies on `String`'s `FromIterator<char>`: collecting characters yields
/// the string that holds exactly those characters in order.
#[verifier::external_body]
fn chars_to_string(v: &Vec<char>) -> (r: String)
    ensures
        r@ == v@,
{
    v.iter().collect()
}

/// The text form of a record's creation stamp, exactly as the wire format
/// carries it between the quotes. It is never empty.
pub fn creation_date_text(at: &Timestamp) -> (r: String)
    requires
        at@.wf(),
    ensures
        r@ == timestamp_text(at@.secs, at@.nanos),
        r@.len() > 0,
{
    timestamp_display(at.secs, at.nanos)
}

/// The decimal digit character for `d`.
pub open spec fn digit_char(d: int) -> char
    recommends
        0 <= d < 10,
{
    if d == 0 { '0' }
    else if d == 1 { '1' }
    else if d == 2 { '2' }
    else if d == 3 { '3' }
    else if d == 4 { '4' }
    else if d == 5 { '5' }
    else if d == 6 { '6' }
    else if d == 7 { '7' }
    else if d == 8 { '8' }
    else { '9' }
}

/// The lower-case hexadecimal digit character for `d`.
pub open spec fn hex_char(d: int) -> char
    recommends
        0 <= d < 16,
{
    if d < 10 { digit_char(d) }
    else if d == 10 { 'a' }
    else if d == 11 { 'b' }
    else if d == 12 { 'c' }
    else if d == 13 { 'd' }
    else if d == 14 { 'e' }
    else { 'f' }
}

/// The decimal digits of a non-negative number, most significant first.
pub open spec fn dec_text(n: int) -> Seq<char>
    recommends
        0 <= n,
    decreases n,
{
    if n < 10 { seq![digit_char(n)] } else { dec_text(n / 10).push(digit_char(n % 10)) }
}

/// The JSON text of an integer: the decimal digits, with a leading minus
/// sign when the number is negative.
pub open spec fn int_text(n: int) -> Seq<char> {
    if n < 0 { seq!['-'] + dec_text(-n) } else { dec_text(n) }
}

/// How one character appears inside a JSON string literal: quote and
/// backslash are escaped, the named control characters take their short
/// escapes, every other control character takes a `\u00..` escape, and
/// all remaining characters stand for themselves.
pub open spec fn escape_char(c: char) -> Seq<char> {
    if c == '"' { seq!['\\', '"'] }
    else if c == '\\' { seq!['\\', '\\'] }
    else if c == '\u{8}' { seq!['\\', 'b'] }
    else if c == '\u{c}' { seq!['\\', 'f'] }
    else if c == '\n' { seq!['\\', 'n'] }
    else if c == '\r' { seq!['\\', 'r'] }
    else if c == '\t' { seq!['\\', 't'] }
    else if (c as u32) < 32 {
        seq!['\\', 'u', '0', '0', hex_char((c as u32) as int / 16), hex_char((c as u32) as int % 16)]
    } else {
        seq![c]
    }
}

/// The body of a JSON string literal holding the characters of `s`.
pub open spec fn escaped(s: Seq<char>) -> Seq<char>
    decreases s.len(),
{
    if s.len() == 0 { Seq::empty() } else { escaped(s.drop_last()) + escape_char(s.last()) }
}

/// The JSON object for one record, fields in declaration order.
pub open spec fn score_json(s: ScoreView) -> Seq<char> {
    "{\"id\":"@ + int_text(s.id)
        + ",\"player\":\""@ + escaped(s.player)
        + "\",\"n_turn\":"@ + int_text(s.n_turn)
        + ",\"median_time\":"@ + int_text(s.median_time)
        + ",\"disks\":"@ + int_text(s.disks)
        + ",\"creation_date\":\""@
        + escaped(timestamp_text(s.creation_date.secs, s.creation_date.nanos)) + "\"}"@
}

/// The comma-separated JSON objects for a sequence of records, in order.
pub open spec fn scores_json_items(rows: Seq<ScoreView>) -> Seq<char>
    decreases rows.len(),
{
    if rows.len() == 0 {
        Seq::empty()
    } else if rows.len() == 1 {
        score_json(rows[0])
    } else {
        scores_json_items(rows.drop_last()) + ","@ + score_json(rows.last())
    }
}

/// The JSON array for a sequence of records.
pub open spec fn scores_json(rows: Seq<ScoreView>) -> Seq<char> {
    "["@ + scores_json_items(rows) + "]"@
}

fn digit_of(d: u32) -> (c: char)
    requires
        d < 10,
    ensures
        c == digit_char(d as int),
{
    if d == 0 { '0' }
    else if d == 1 { '1' }
    else if d == 2 { '2' }
    else if d == 3 { '3' }
    else if d == 4 { '4' }
    else if d == 5 { '5' }
    else if d == 6 { '6' }
    else if d == 7 { '7' }
    else if d == 8 { '8' }
    else { '9' }
}

fn hex_of(d: u32) -> (c: char)
    requires
        d < 16,
    ensures
        c == hex_char(d as int),
{
    if d < 10 { digit_of(d) }
    else if d == 10 { 'a' }
    else if d == 11 { 'b' }
    else if d == 12 { 'c' }
    else if d == 13 { 'd' }
    else if d == 14 { 'e' }
    else { 'f' }
}

/// Append the characters of `s` to `out`.
fn push_lit(out: &mut Vec<char>, s: &str)
    ensures
        final(out)@ == old(out)@ + s@,
{
    let n = s.unicode_len();
    proof {
        assert(out@ =~= old(out)@ + s@.take(0));
    }
    let mut i: usize = 0;
    while i < n
        invariant
            i <= n,
            n == s@.len(),
            out@ == old(out)@ + s@.take(i as int),
        decreases n - i,
    {
        let c = s.get_char(i);
        out.push(c);
        proof {
            assert(out@ =~= old(out)@ + s@.take(i as int + 1));
        }
        i = i + 1;
    }
    proof {
        assert(s@.take(n as int) =~= s@);
    }
}

/// Append the decimal digits of `n` to `out`.
fn push_dec(out: &mut Vec<char>, n: u32)
    ensures
        final(out)@ == old(out)@ + dec_text(n as int),
    decreases n,
{
    if n < 10 {
        out.push(digit_of(n));
        proof {
            assert(out@ =~= old(out)@ + dec_text(n as int));
        }
    } else {
        push_dec(out, n / 10);
        let d = digit_of(n % 10);
        out.push(d);
        proof {
            assert(out@ =~= old(out)@ + dec_text(n as int));
        }
    }
}

/// Append the JSON text of `n` to `out`.
fn push_i32(out: &mut Vec<char>, n: i32)
    ensures
        final(out)@ == old(out)@ + int_text(n as int),
{
    if n >= 0 {
        push_dec(out, n as u32);
    } else {
        out.push('-');
        let m: u32 = (-(n as i64)) as u32;
        proof {
            assert(m as int == -(n as int));
        }
        push_dec(out, m);
        proof {
            assert(out@ =~= old(out)@ + int_text(n as int));
        }
    }
}

/// Append the escape of one character to `out`.
fn push_escaped_char(out: &mut Vec<char>, c: char)
    ensures
        final(out)@ == old(out)@ + escape_char(c),
{
    if c == '"' {
        out.push('\\');
        out.push('"');
    } else if c == '\\' {
        out.push('\\');
        out.push('\\');
    } else if c == '\u{8}' {
        out.push('\\');
        out.push('b');
    } else if c == '\u{c}' {
        out.push('\\');
        out.push('f');
    } else if c == '\n' {
        out.push('\\');
        out.push('n');
    } else if c == '\r' {
        out.push('\\');
        out.push('r');
    } else if c == '\t' {
        out.push('\\');
        out.push('t');
    } else if (c as u32) < 32 {
        let v = c as u32;
        out.push('\\');
        out.push('u');
        out.push('0');
        out.push('0');
        out.push(hex_of(v / 16));
        out.push(hex_of(v % 16));
    } else {
        out.push(c);
    }
    proof {
        assert(out@ =~= old(out)@ + escape_char(c));
    }
}

/// Append the JSON string-literal body for the characters of `s` to `out`.
fn push_escaped(out: &mut Vec<char>, s: &str)
    ensures
        final(out)@ == old(out)@ + escaped(s@),
{
    let n = s.unicode_len();
    proof {
        assert(out@ =~= old(out)@ + escaped(s@.take(0)));
    }
    let mut i: usize = 0;
    while i < n
        invariant
            i <= n,
            n == s@.len(),
            out@ == old(out)@ + escaped(s@.take(i as int)),
        decreases n - i,
    {
        let c = s.get_char(i);
        push_escaped_char(out, c);
        proof {
            assert(s@.take(i as int + 1).drop_last() =~= s@.take(i as int));
            assert(out@ =~= old(out)@ + escaped(s@.take(i as int + 1)));
        }
        i = i + 1;
    }
    proof {
        assert(s@.take(n as int) =~= s@);
    }
}

/// The JSON object for one record, exactly as the wire format sends it.
pub fn encode_score(s: &Score) -> (r: String)
    requires
        s@.creation_date.wf(),
    ensures
        r@ == score_json(s@),
        timestamp_text(s@.creation_date.secs, s@.creation_date.nanos).len() > 0,
{
    let mut out: Vec<char> = Vec::new();
    push_lit(&mut out, "{\"id\":");
    push_i32(&mut out, s.id);
    push_lit(&mut out, ",\"player\":\"");
    push_escaped(&mut out, s.player.as_str());
    push_lit(&mut out, "\",\"n_turn\":");
    push_i32(&mut out, s.n_turn);
    push_lit(&mut out, ",\"median_time\":");
    push_i32(&mut out, s.median_time);
    push_lit(&mut out, ",\"disks\":");
    push_i32(&mut out, s.disks);
    push_lit(&mut out, ",\"creation_date\":\"");
    let stamp = creation_date_text(&s.creation_date);
    push_escaped(&mut out, stamp.as_str());
    push_lit(&mut out, "\"}");
    proof {
        assert(out@ =~= score_json(s@));
    }
    chars_to_string(&out)
}

/// The JSON array for a list of records, exactly as the wire format sends it.
pub fn encode_scores(v: &Vec<Score>) -> (r: String)
    requires
        forall|k: int| 0 <= k < v@.len() ==> (#[trigger] v@[k])@.creation_date.wf(),
    ensures
        r@ == scores_json(v@.map_values(|s: Score| s@)),
{
    let ghost views = v@.map_values(|s: Score| s@);
    let mut out: Vec<char> = Vec::new();
    push_lit(&mut out, "[");
    proof {
        assert(out@ =~= "["@ + scores_json_items(views.take(0)));
    }
    let mut i: usize = 0;
    while i < v.len()
        invariant
            i <= v.len(),
            views == v@.map_values(|s: Score| s@),
            views.len() == v@.len(),
            forall|k: int| 0 <= k < v@.len() ==> (#[trigger] v@[k])@.creation_date.wf(),
            out@ == "["@ + scores_json_items(views.take(i as int)),
        decreases v.len() - i,
    {
        if i > 0 {
            push_lit(&mut out, ",");
        }
        let piece = encode_score(&v[i]);
        push_lit(&mut out, piece.as_str());
        proof {
            assert(views.take(i as int + 1).drop_last() =~= views.take(i as int));
            assert(views.take(i as int + 1).last() == views[i as int]);
            assert(out@ =~= "["@ + scores_json_items(views.take(i as int + 1)));
        }
        i = i + 1;
    }
    push_lit(&mut out, "]");
    proof {
        assert(views.take(views.len() as int) =~= views);
        assert(out@ =~= scores_json(views));
    }
    chars_to_string(&out)
}

} // verus!
