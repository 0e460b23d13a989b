use vstd::prelude::*;
use crate::text::{dec, padded, push_decimal, push_padded};

verus! {

pub open spec fn pow1024(u: nat) -> nat
    decreases u,
{
    if u == 0 { 1 } else { 1024 * pow1024((u - 1) as nat) }
}

pub open spec fn pow10(p: nat) -> nat
    decreases p,
{
    if p == 0 { 1 } else { 10 * pow10((p - 1) as nat) }
}

/// Starting at unit `u`, step up one unit while the value is at least 1024
/// of the next unit and `top` is not reached.
pub open spec fn unit_from(b: nat, u: nat, top: nat) -> nat
    decreases top - u,
{
    if u < top && b >= pow1024(u + 1) { unit_from(b, u + 1, top) } else { u }
}

/// The largest unit, at most `top`, of which `b` bytes make at least one.
pub open spec fn unit_of(b: nat, top: nat) -> nat {
    unit_from(b, 0, top)
}

/// `num / den` rounded to the nearest integer, ties to even.
pub open spec fn rounded(num: nat, den: nat) -> nat
    recommends
        den > 0,
{
    let q = num / den;
    let r = num % den;
    if 2 * r > den || (2 * r == den && q % 2 == 1) { q + 1 } else { q }
}

/// `q / 10^p` written with `p` decimal places.
pub open spec fn fixed(q: nat, p: nat) -> Seq<char> {
    if p == 0 {
        dec(q)
    } else {
        dec(q / pow10(p)) + seq!['.'] + padded(q, p)
    }
}

/// `b` bytes in unit `u`, rounded to `p` decimal places, in units of `10^-p`.
pub open spec fn scaled_spec(b: nat, u: nat, p: nat) -> nat {
    rounded(b * pow10(p), pow1024(u))
}

pub open spec fn unit_name(u: nat) -> Seq<char> {
    if u == 0 { seq!['B'] }
    else if u == 1 { seq!['K', 'B'] }
    else if u == 2 { seq!['M', 'B'] }
    else if u == 3 { seq!['G', 'B'] }
    else if u == 4 { seq!['T', 'B'] }
    else { seq!['P', 'B'] }
}

/// Binary units up to TB, one decimal place: 1536 is "1.5 KB".
pub open spec fn bytes_text(b: nat) -> Seq<char> {
    let u = unit_of(b, 4);
    fixed(scaled_spec(b, u, 1), 1) + seq![' '] + unit_name(u)
}

/// Binary units up to PB. Bytes are whole; kilobytes carry one decimal place,
/// dropped when it is zero; megabytes carry one, larger units two.
pub open spec fn bytes_detailed_text(b: nat) -> Seq<char> {
    let u = unit_of(b, 5);
    let number = if u == 0 {
        dec(b)
    } else if u == 1 {
        let q = scaled_spec(b, 1, 1);
        if q % 10 == 0 { dec(q / 10) } else { fixed(q, 1) }
    } else if u == 2 {
        fixed(scaled_spec(b, 2, 1), 1)
    } else {
        fixed(scaled_spec(b, u, 2), 2)
    };
    number + seq![' '] + unit_name(u)
}

pub open spec fn uptime_text(secs: nat) -> Seq<char> {
    let days = secs / 86400;
    let hours = (secs % 86400) / 3600;
    let minutes = (secs % 3600) / 60;
    let seconds = secs % 60;
    let s_part = dec(seconds) + seq!['s'];
    let m_part = dec(minutes) + seq!['m', ' '] + s_part;
    let h_part = dec(hours) + seq!['h', ' '] + m_part;
    if days > 0 {
        dec(days) + seq!['d', ' '] + h_part
    } else if hours > 0 {
        h_part
    } else if minutes > 0 {
        m_part
    } else {
        s_part
    }
}

proof fn lemma_pow1024_bound(u: nat)
    requires
        u <= 6,
    ensures
        1 <= pow1024(u) <= 0x1000_0000_0000_0000,
        u <= 5 ==> pow1024(u) <= 0x4_0000_0000_0000,
{
    reveal_with_fuel(pow1024, 7);
}

/// Picks the unit for `b` bytes, at most `top`; returns it with `1024^unit`.
fn pick_unit(b: u64, top: u32) -> (r: (u32, u64))
    requires
        top <= 5,
    ensures
        r.0 == unit_of(b as nat, top as nat),
        r.1 == pow1024(r.0 as nat),
        r.1 > 0,
        r.0 <= top,
{
    let mut u: u32 = 0;
    let mut d: u64 = 1;
    while u < top && b >= d * 1024
        invariant
            u <= top <= 5,
            d == pow1024(u as nat),
            d <= 0x4_0000_0000_0000,
            unit_from(b as nat, u as nat, top as nat) == unit_of(b as nat, top as nat),
        decreases top - u,
    {
        proof {
            lemma_pow1024_bound(u as nat);
            lemma_pow1024_bound((u + 1) as nat);
        }
        d = d * 1024;
        u = u + 1;
    }
    proof {
        lemma_pow1024_bound(u as nat);
        lemma_pow1024_bound((u + 1) as nat);
    }
    (u, d)
}

/// `b / d` rounded to `p` decimal places, ties to even, in units of `10^-p`.
fn scaled(b: u64, d: u64, p: u32) -> (q: u128)
    requires
        d > 0,
        p <= 2,
    ensures
        q == rounded((b as nat) * pow10(p as nat), d as nat),
{
    let m: u128 = if p == 0 { 1 } else if p == 1 { 10 } else { 100 };
    assert(m == pow10(p as nat)) by {
        reveal_with_fuel(pow10, 3);
    }
    assert((b as u128) * m <= 0xffff_ffff_ffff_ffff * 100) by (nonlinear_arith)
        requires
            b <= 0xffff_ffff_ffff_ffff,
            m <= 100,
    ;
    let num: u128 = (b as u128) * m;
    let den: u128 = d as u128;
    let q = num / den;
    let r = num % den;
    if 2 * r > den || (2 * r == den && q % 2 == 1) {
        assert(q <= num) by (nonlinear_arith)
            requires
                q == num / den,
                den > 0,
        ;
        q + 1
    } else {
        q
    }
}

/// Appends `q / 10^p` with `p` decimal places.
fn push_fixed(s: &mut String, q: u128, p: u32)
    requires
        p <= 2,
    ensures
        final(s)@ == old(s)@ + fixed(q as nat, p as nat),
{
    if p == 0 {
        push_decimal(s, q);
    } else {
        let m: u128 = if p == 1 { 10 } else { 100 };
        assert(m == pow10(p as nat)) by {
            reveal_with_fuel(pow10, 3);
        }
        push_decimal(s, q / m);
        proof {
            reveal_strlit(".");
        }
        s.append(".");
        push_padded(s, q, p);
    }
    proof {
        assert(final(s)@ =~= old(s)@ + fixed(q as nat, p as nat));
    }
}

/// Appends a space and the name of unit `u`.
fn push_unit(s: &mut String, u: u32)
    requires
        u <= 5,
    ensures
        final(s)@ == old(s)@ + seq![' '] + unit_name(u as nat),
{
    proof {
        reveal_strlit(" B");
        reveal_strlit(" KB");
        reveal_strlit(" MB");
        reveal_strlit(" GB");
        reveal_strlit(" TB");
        reveal_strlit(" PB");
    }
    let name = if u == 0 { " B" }
        else if u == 1 { " KB" }
        else if u == 2 { " MB" }
        else if u == 3 { " GB" }
        else if u == 4 { " TB" }
        else { " PB" };
    s.append(name);
    proof {
        assert(final(s)@ =~= old(s)@ + seq![' '] + unit_name(u as nat));
    }
}

/// A byte count in binary units up to TB with one decimal place.
pub fn format_bytes(bytes: u64) -> (r: String)
    ensures
        r@ == bytes_text(bytes as nat),
{
    let (u, d) = pick_unit(bytes, 4);
    let q = scaled(bytes, d, 1);
    let mut s = String::new();
    push_fixed(&mut s, q, 1);
    push_unit(&mut s, u);
    proof {
        assert(s@ =~= bytes_text(bytes as nat));
    }
    s
}

/// A byte count in binary units up to PB, with more decimal places for
/// larger units.
pub fn format_bytes_detailed(bytes: u64) -> (r: String)
    ensures
        r@ == bytes_detailed_text(bytes as nat),
{
    let (u, d) = pick_unit(bytes, 5);
    let mut s = String::new();
    if u == 0 {
        push_decimal(&mut s, bytes as u128);
    } else if u == 1 {
        let q = scaled(bytes, d, 1);
        if q % 10 == 0 {
            push_decimal(&mut s, q / 10);
        } else {
            push_fixed(&mut s, q, 1);
        }
    } else if u == 2 {
        push_fixed(&mut s, scaled(bytes, d, 1), 1);
    } else {
        push_fixed(&mut s, scaled(bytes, d, 2), 2);
    }
    push_unit(&mut s, u);
    proof {
        assert(s@ =~= bytes_detailed_text(bytes as nat));
    }
    s
}

/// Appends `n` followed by the suffix `t`.
fn push_part(s: &mut String, n: u64, t: &str)
    ensures
        final(s)@ == old(s)@ + dec(n as nat) + t@,
{
    push_decimal(s, n as u128);
    s.append(t);
    proof {
        assert(final(s)@ =~= old(s)@ + dec(n as nat) + t@);
    }
}

/// An uptime in seconds as "1d 1h 1m 1s", leaving out leading zero parts.
pub fn format_uptime(uptime_seconds: u64) -> (r: String)
    ensures
        r@ == uptime_text(uptime_seconds as nat),
{
    let days = uptime_seconds / 86400;
    let hours = (uptime_seconds % 86400) / 3600;
    let minutes = (uptime_seconds % 3600) / 60;
    let seconds = uptime_seconds % 60;
    proof {
        reveal_strlit("d ");
        reveal_strlit("h ");
        reveal_strlit("m ");
        reveal_strlit("s");
    }
    let ghost s_part = dec(seconds as nat) + seq!['s'];
    let ghost m_part = dec(minutes as nat) + seq!['m', ' '] + s_part;
    let ghost h_part = dec(hours as nat) + seq!['h', ' '] + m_part;
    let mut s = String::new();
    let ghost start = s@;
    if days > 0 {
        push_part(&mut s, days, "d ");
    }
    let ghost at_h = s@;
    if days > 0 || hours > 0 {
        push_part(&mut s, hours, "h ");
    }
    let ghost at_m = s@;
    if days > 0 || hours > 0 || minutes > 0 {
        push_part(&mut s, minutes, "m ");
    }
    let ghost at_s = s@;
    push_part(&mut s, seconds, "s");
    proof {
        assert(s@ =~= at_s + s_part);
        if days > 0 || hours > 0 || minutes > 0 {
            assert(s@ =~= at_m + m_part);
        }
        if days > 0 || hours > 0 {
            assert(s@ =~= at_h + h_part);
        }
        if days > 0 {
            assert(s@ =~= dec(days as nat) + seq!['d', ' '] + h_part);
        }
    }
    s
}

} // verus!
