use vstd::prelude::*;

verus! {

/// The decimal rendering of a natural number, most significant digit first.
pub open spec fn decimal(n: nat) -> Seq<char>
    decreases n,
{
    if n < 10 {
        seq![digit_char(n)]
    } else {
        decimal(n / 10) + seq![digit_char(n % 10)]
    }
}

pub open spec fn digit_char(d: nat) -> char {
    if d == 0 { '0' } else if d == 1 { '1' } else if d == 2 { '2' } else if d == 3 { '3' }
    else if d == 4 { '4' } else if d == 5 { '5' } else if d == 6 { '6' } else if d == 7 { '7' }
    else if d == 8 { '8' } else { '9' }
}

/// The items joined by `sep`, in order.
pub open spec fn joined(items: Seq<Seq<char>>, sep: Seq<char>) -> Seq<char>
    decreases items.len(),
{
    if items.len() == 0 {
        Seq::empty()
    } else if items.len() == 1 {
        items[0]
    } else {
        joined(items.drop_last(), sep) + sep + items.last()
    }
}

fn digit_str(d: usize) -> (r: &'static str)
    requires
        d < 10,
    ensures
        r@ == seq![digit_char(d as nat)],
{
    proof {
        reveal_strlit("0");
        reveal_strlit("1");
        reveal_strlit("2");
        reveal_strlit("3");
        reveal_strlit("4");
        reveal_strlit("5");
        reveal_strlit("6");
        reveal_strlit("7");
        reveal_strlit("8");
        reveal_strlit("9");
    }
    match d {
        0 => "0",
        1 => "1",
        2 => "2",
        3 => "3",
        4 => "4",
        5 => "5",
        6 => "6",
        7 => "7",
        8 => "8",
        _ => "9",
    }
}

/// Appends the decimal rendering of `n` to `out`.
pub fn push_decimal(out: &mut String, n: usize)
    ensures
        final(out)@ == old(out)@ + decimal(n as nat),
    decreases n,
{
    if n >= 10 {
        push_decimal(out, n / 10);
        out.append(digit_str(n % 10));
        assert(final(out)@ =~= old(out)@ + decimal(n as nat));
    } else {
        out.append(digit_str(n));
        assert(final(out)@ =~= old(out)@ + decimal(n as nat));
    }
}

/// Appends the views of `items` to `out`, separated by `sep`.
pub fn push_joined(out: &mut String, items: &Vec<String>, sep: &str)
    ensures
        final(out)@ == old(out)@ + joined(items@.map_values(|s: String| s@), sep@),
{
    let ghost start = out@;
    let ghost views = items@.map_values(|s: String| s@);
    let mut i: usize = 0;
    while i < items.len()
        invariant
            i <= items.len(),
            views == items@.map_values(|s: String| s@),
            out@ == start + joined(views.take(i as int), sep@),
        decreases items.len() - i,
    {
        proof {
            assert(views.take(i as int + 1).drop_last() =~= views.take(i as int));
            assert(views.take(i as int + 1).last() == items@[i as int]@);
        }
        if i > 0 {
            out.append(sep);
        } else {
            assert(views.take(1) =~= seq![items@[0]@]);
        }
        out.append(items[i].as_str());
        assert(out@ =~= start + joined(views.take(i as int + 1), sep@));
        i = i + 1;
    }
    assert(views.take(items.len() as int) =~= views);
}

/// The lower-case hexadecimal digit of `d`.
pub open spec fn hex_char(d: nat) -> char {
    if d < 10 {
        digit_char(d)
    } else if d == 10 { 'a' } else if d == 11 { 'b' } else if d == 12 { 'c' } else if d == 13 { 'd' }
    else if d == 14 { 'e' } else { 'f' }
}

/// The `count` lowest hexadecimal digits of `v`, most significant first.
pub open spec fn hex_digits(v: nat, count: nat) -> Seq<char>
    decreases count,
{
    if count == 0 {
        Seq::empty()
    } else {
        hex_digits(v / 16, (count - 1) as nat) + seq![hex_char(v % 16)]
    }
}

/// The hyphenated lower-case form of a 128-bit UUID: 8, 4, 4, 4 and 12 hex
/// digits, most significant first.
pub open spec fn uuid_text(v: u128) -> Seq<char> {
    hex_digits((v / 0x1_0000_0000_0000_0000_0000_0000) as nat, 8) + "-"@
        + hex_digits(((v / 0x1_0000_0000_0000_0000_0000) % 0x1_0000) as nat, 4) + "-"@
        + hex_digits(((v / 0x1_0000_0000_0000_0000) % 0x1_0000) as nat, 4) + "-"@
        + hex_digits(((v / 0x1_0000_0000_0000) % 0x1_0000) as nat, 4) + "-"@
        + hex_digits((v % 0x1_0000_0000_0000) as nat, 12)
}

fn hex_str(d: u128) -> (r: &'static str)
    requires
        d < 16,
    ensures
        r@ == seq![hex_char(d as nat)],
{
    if d < 10 {
        return digit_str(d as usize);
    }
    proof {
        reveal_strlit("a");
        reveal_strlit("b");
        reveal_strlit("c");
        reveal_strlit("d");
        reveal_strlit("e");
        reveal_strlit("f");
    }
    match d {
        10 => "a",
        11 => "b",
        12 => "c",
        13 => "d",
        14 => "e",
        _ => "f",
    }
}

/// Appends the `count` lowest hexadecimal digits of `v` to `out`.
pub fn push_hex(out: &mut String, v: u128, count: usize)
    ensures
        final(out)@ == old(out)@ + hex_digits(v as nat, count as nat),
    decreases count,
{
    if count > 0 {
        push_hex(out, v / 16, count - 1);
        out.append(hex_str(v % 16));
        assert(final(out)@ =~= old(out)@ + hex_digits(v as nat, count as nat));
    } else {
        assert(final(out)@ =~= old(out)@ + hex_digits(v as nat, count as nat));
    }
}

/// The hyphenated lower-case form of the UUID `v`.
pub fn uuid_string(v: u128) -> (r: String)
    ensures
        r@ == uuid_text(v),
{
    let mut s = String::new();
    push_hex(&mut s, v / 0x1_0000_0000_0000_0000_0000_0000, 8);
    s.append("-");
    push_hex(&mut s, (v / 0x1_0000_0000_0000_0000_0000) % 0x1_0000, 4);
    s.append("-");
    push_hex(&mut s, (v / 0x1_0000_0000_0000_0000) % 0x1_0000, 4);
    s.append("-");
    push_hex(&mut s, (v / 0x1_0000_0000_0000) % 0x1_0000, 4);
    s.append("-");
    push_hex(&mut s, v % 0x1_0000_0000_0000, 12);
    assert(s@ =~= uuid_text(v));
    s
}

} // verus!
