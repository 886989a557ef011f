use vstd::prelude::*;

verus! {

/// The decimal digit character for a digit in `[0, 9]`.
pub open spec fn digit_char(d: int) -> char {
    if d == 0 {
        '0'
    } else if d == 1 {
        '1'
    } else if d == 2 {
        '2'
    } else if d == 3 {
        '3'
    } else if d == 4 {
        '4'
    } else if d == 5 {
        '5'
    } else if d == 6 {
        '6'
    } else if d == 7 {
        '7'
    } else if d == 8 {
        '8'
    } else {
        '9'
    }
}

/// The decimal digits of `n`, most significant first (a single `'0'` for 0).
pub open spec fn dec_seq(n: nat) -> Seq<char>
    decreases n,
{
    if n < 10 {
        seq![digit_char(n as int)]
    } else {
        dec_seq(n / 10) + seq![digit_char((n % 10) as int)]
    }
}

/// `n` in decimal, zero-padded to at least two digits: the clock fields of
/// the timer display.
pub open spec fn two_pad(n: nat) -> Seq<char> {
    if n < 10 {
        seq!['0', digit_char(n as int)]
    } else {
        dec_seq(n)
    }
}

/// Hours field of a countdown of `t` seconds.
pub open spec fn spec_hours(t: int) -> int {
    t / 3600
}

/// Minutes field of a countdown of `t` seconds, under an hours field.
pub open spec fn spec_minutes(t: int) -> int {
    (t % 3600) / 60
}

/// Seconds field of a countdown of `t` seconds.
pub open spec fn spec_seconds(t: int) -> int {
    t % 60
}

/// The `HH:MM:SS` clock string for a countdown of `t` seconds.
pub open spec fn spec_hms(t: int) -> Seq<char> {
    two_pad(spec_hours(t) as nat) + seq![':'] + two_pad(spec_minutes(t) as nat) + seq![':']
        + two_pad(spec_seconds(t) as nat)
}

/// The `MM:SS` clock string for a countdown of `t` seconds: here the minutes
/// field carries everything above the seconds, with no hours field.
pub open spec fn spec_ms(t: int) -> Seq<char> {
    two_pad((t / 60) as nat) + seq![':'] + two_pad((t % 60) as nat)
}

/// Splitting `t` seconds into clock fields loses nothing: the fields weighted
/// back together give `t` again.
pub proof fn lemma_clock_fields_round_trip(t: int)
    requires
        0 <= t,
    ensures
        spec_hours(t) * 3600 + spec_minutes(t) * 60 + spec_seconds(t) == t,
        (t / 60) * 60 + (t % 60) == t,
{
    assert(t / 3600 * 3600 + (t % 3600) / 60 * 60 + t % 60 == t) by (nonlinear_arith);
    assert(t / 60 * 60 + t % 60 == t) by (nonlinear_arith);
}

/// Split a countdown of `t` seconds into clock fields: hours, minutes under
/// the hour, seconds under the minute. Weighted back together, the fields
/// give `t` again.
pub fn clock_fields(t: u32) -> (r: (u32, u32, u32))
    ensures
        r.0 == spec_hours(t as int),
        r.1 == spec_minutes(t as int),
        r.2 == spec_seconds(t as int),
        r.0 * 3600 + r.1 * 60 + r.2 == t,
        r.1 < 60,
        r.2 < 60,
{
    let h = t / 3600;
    let m = (t % 3600) / 60;
    let s = t % 60;
    proof {
        lemma_clock_fields_round_trip(t as int);
    }
    (h, m, s)
}

/// The string of one decimal digit.
fn digit_str(d: u32) -> (r: &'static str)
    requires
        d < 10,
    ensures
        r@ == seq![digit_char(d as int)],
{
    proof {
        reveal_strlit("0");
        reveal_strlit("1");
        reveal_strlit("2");
        reveal_strlit("3");
        reveal_strlit("4");
        reveal_strlit("5");
        reveal_strlit("6");
        reveal_strlit("7");
        reveal_strlit("8");
        reveal_strlit("9");
    }
    let r = if d == 0 {
        "0"
    } else if d == 1 {
        "1"
    } else if d == 2 {
        "2"
    } else if d == 3 {
        "3"
    } else if d == 4 {
        "4"
    } else if d == 5 {
        "5"
    } else if d == 6 {
        "6"
    } else if d == 7 {
        "7"
    } else if d == 8 {
        "8"
    } else {
        "9"
    };
    proof {
        assert(r@ =~= seq![digit_char(d as int)]);
    }
    r
}

/// `n` in decimal, most significant digit first.
pub fn render_dec(n: u32) -> (r: String)
    ensures
        r@ == dec_seq(n as nat),
    decreases n,
{
    if n < 10 {
        String::from_str(digit_str(n))
    } else {
        let mut s = render_dec(n / 10);
        s.append(digit_str(n % 10));
        s
    }
}

/// `n` in decimal, zero-padded to at least two digits.
pub fn render_two_pad(n: u32) -> (r: String)
    ensures
        r@ == two_pad(n as nat),
{
    if n < 10 {
        let mut s = String::from_str(digit_str(0));
        s.append(digit_str(n));
        proof {
            assert(s@ =~= two_pad(n as nat));
        }
        s
    } else {
        render_dec(n)
    }
}

/// The `HH:MM:SS` clock string for a countdown of `t` seconds.
pub fn render_hms(t: u32) -> (r: String)
    ensures
        r@ == spec_hms(t as int),
{
    proof {
        reveal_strlit(":");
    }
    let h = t / 3600;
    let m = (t % 3600) / 60;
    let s = t % 60;
    let mut out = render_two_pad(h);
    out.append(":");
    let mm = render_two_pad(m);
    out.append(mm.as_str());
    out.append(":");
    let ss = render_two_pad(s);
    out.append(ss.as_str());
    proof {
        assert(":"@ =~= seq![':']);
        assert(out@ =~= spec_hms(t as int));
    }
    out
}

/// The `MM:SS` clock string for a countdown of `t` seconds.
pub fn render_ms(t: u32) -> (r: String)
    ensures
        r@ == spec_ms(t as int),
{
    proof {
        reveal_strlit(":");
    }
    let m = t / 60;
    let s = t % 60;
    let mut out = render_two_pad(m);
    out.append(":");
    let ss = render_two_pad(s);
    out.append(ss.as_str());
    proof {
        assert(":"@ =~= seq![':']);
        assert(out@ =~= spec_ms(t as int));
    }
    out
}

} // verus!
