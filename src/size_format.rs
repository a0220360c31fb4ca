use vstd::prelude::*;

verus! {

pub const KB: u64 = 1024;

pub const MB: u64 = 1048576;

pub const GB: u64 = 1073741824;

/// The character of a decimal digit.
pub open spec fn digit_char(d: nat) -> char {
    if d == 0 {
        '0'
    } else if d == 1 {
        '1'
    } else if d == 2 {
        '2'
    } else if d == 3 {
        '3'
    } else if d == 4 {
        '4'
    } else if d == 5 {
        '5'
    } else if d == 6 {
        '6'
    } else if d == 7 {
        '7'
    } else if d == 8 {
        '8'
    } else {
        '9'
    }
}

/// Decimal notation of `n`, without leading zeros ("0" for zero).
pub open spec fn decimal(n: nat) -> Seq<char>
    decreases n,
{
    if n < 10 {
        seq![digit_char(n)]
    } else {
        decimal(n / 10) + seq![digit_char(n % 10)]
    }
}

/// `b / unit` in hundredths, rounded to the nearest hundredth, with an exact
/// tie going to the even neighbour.
pub open spec fn hundredths(b: nat, unit: nat) -> nat
    recommends
        unit > 0,
{
    let q = (b * 100) / unit;
    let r = (b * 100) % unit;
    if 2 * r > unit || (2 * r == unit && q % 2 == 1) {
        q + 1
    } else {
        q
    }
}

/// A count of hundredths written with exactly two decimal places.
pub open spec fn two_places(h: nat) -> Seq<char> {
    decimal(h / 100) + seq!['.', digit_char((h / 10) % 10), digit_char(h % 10)]
}

/// The human-readable text of a byte count: whole bytes below one KB, else
/// the largest of KB, MB and GB that the count reaches, to two places.
pub open spec fn size_text(b: nat) -> Seq<char> {
    if b >= GB {
        two_places(hundredths(b, GB as nat)) + seq![' ', 'G', 'B']
    } else if b >= MB {
        two_places(hundredths(b, MB as nat)) + seq![' ', 'M', 'B']
    } else if b >= KB {
        two_places(hundredths(b, KB as nat)) + seq![' ', 'K', 'B']
    } else {
        decimal(b) + seq![' ', 'B']
    }
}

fn digit_str(d: u64) -> (r: &'static str)
    requires
        d < 10,
    ensures
        r@ == seq![digit_char(d as nat)],
{
    if d == 0 {
        proof { reveal_strlit("0"); }
        "0"
    } else if d == 1 {
        proof { reveal_strlit("1"); }
        "1"
    } else if d == 2 {
        proof { reveal_strlit("2"); }
        "2"
    } else if d == 3 {
        proof { reveal_strlit("3"); }
        "3"
    } else if d == 4 {
        proof { reveal_strlit("4"); }
        "4"
    } else if d == 5 {
        proof { reveal_strlit("5"); }
        "5"
    } else if d == 6 {
        proof { reveal_strlit("6"); }
        "6"
    } else if d == 7 {
        proof { reveal_strlit("7"); }
        "7"
    } else if d == 8 {
        proof { reveal_strlit("8"); }
        "8"
    } else {
        proof { reveal_strlit("9"); }
        "9"
    }
}

/// Appends the decimal notation of `n` to `s`.
fn push_decimal(s: &mut String, n: u64)
    ensures
        final(s)@ == old(s)@ + decimal(n as nat),
    decreases n,
{
    if n < 10 {
        s.append(digit_str(n));
    } else {
        push_decimal(s, n / 10);
        s.append(digit_str(n % 10));
        assert(final(s)@ =~= old(s)@ + decimal(n as nat));
    }
}

/// Appends a count of hundredths with two decimal places to `s`.
fn push_two_places(s: &mut String, h: u64)
    ensures
        final(s)@ == old(s)@ + two_places(h as nat),
{
    push_decimal(s, h / 100);
    proof { reveal_strlit("."); }
    s.append(".");
    s.append(digit_str((h / 10) % 10));
    s.append(digit_str(h % 10));
    assert(final(s)@ =~= old(s)@ + two_places(h as nat));
}

/// Rounded hundredths of `b / unit`, computed without overflow.
fn scaled(b: u64, unit: u64) -> (h: u64)
    requires
        unit >= KB,
    ensures
        h == hundredths(b as nat, unit as nat),
{
    let wide: u128 = (b as u128) * 100;
    let q: u128 = wide / (unit as u128);
    let r: u128 = wide % (unit as u128);
    assert(q <= wide / 1024) by (nonlinear_arith)
        requires
            unit >= 1024,
            q == wide / (unit as u128),
            wide >= 0,
    {
        vstd::arithmetic::div_mod::lemma_div_is_ordered_by_denominator(wide as int, 1024, unit as int);
    }
    let up: bool = 2 * r > (unit as u128) || (2 * r == (unit as u128) && q % 2 == 1);
    if up {
        (q + 1) as u64
    } else {
        q as u64
    }
}

/// Human-readable size of a byte count: `"500 B"`, `"2.00 KB"`,
/// `"1.50 MB"`, `"3.00 GB"`.
pub fn format_size(size: u64) -> (r: String)
    ensures
        r@ == size_text(size as nat),
{
    let mut s = String::new();
    if size >= GB {
        push_two_places(&mut s, scaled(size, GB));
        proof { reveal_strlit(" GB"); }
        s.append(" GB");
    } else if size >= MB {
        push_two_places(&mut s, scaled(size, MB));
        proof { reveal_strlit(" MB"); }
        s.append(" MB");
    } else if size >= KB {
        push_two_places(&mut s, scaled(size, KB));
        proof { reveal_strlit(" KB"); }
        s.append(" KB");
    } else {
        push_decimal(&mut s, size);
        proof { reveal_strlit(" B"); }
        s.append(" B");
    }
    assert(s@ =~= size_text(size as nat));
    s
}

proof fn lemma_at_least_one_unit(b: nat, unit: nat)
    requires
        unit > 0,
        b >= unit,
    ensures
        hundredths(b, unit) >= 100,
{
    vstd::arithmetic::div_mod::lemma_div_is_ordered((unit * 100) as int, (b * 100) as int, unit as int);
    vstd::arithmetic::div_mod::lemma_div_multiples_vanish(100, unit as int);
    assert(unit * 100 <= b * 100) by (nonlinear_arith)
        requires
            b >= unit,
    ;
    assert(100 * unit == unit * 100) by (nonlinear_arith);
}

/// Every byte count is shown in the largest unit that it reaches, so the
/// shown magnitude is at least one: whole bytes below one KB, and at least
/// `1.00` of KB, MB or GB otherwise.
pub proof fn lemma_largest_unit(b: nat)
    ensures
        b < KB ==> size_text(b) == decimal(b) + seq![' ', 'B'],
        KB <= b < MB ==> hundredths(b, KB as nat) >= 100
            && size_text(b) == two_places(hundredths(b, KB as nat)) + seq![' ', 'K', 'B'],
        MB <= b < GB ==> hundredths(b, MB as nat) >= 100
            && size_text(b) == two_places(hundredths(b, MB as nat)) + seq![' ', 'M', 'B'],
        GB <= b ==> hundredths(b, GB as nat) >= 100
            && size_text(b) == two_places(hundredths(b, GB as nat)) + seq![' ', 'G', 'B'],
{
    if b >= GB {
        lemma_at_least_one_unit(b, GB as nat);
    } else if b >= MB {
        lemma_at_least_one_unit(b, MB as nat);
    } else if b >= KB {
        lemma_at_least_one_unit(b, KB as nat);
    }
}

} // verus!
