//! Numbers and lists as text.

use vstd::prelude::*;
use vstd::string::StringExecFns;

verus! {

/// The character for a digit `0..=15`, lower case from ten on.
pub open spec fn digit_char(d: int) -> char {
    if d == 0 {
        '0'
    } else if d == 1 {
        '1'
    } else if d == 2 {
        '2'
    } else if d == 3 {
        '3'
    } else if d == 4 {
        '4'
    } else if d == 5 {
        '5'
    } else if d == 6 {
        '6'
    } else if d == 7 {
        '7'
    } else if d == 8 {
        '8'
    } else if d == 9 {
        '9'
    } else if d == 10 {
        'a'
    } else if d == 11 {
        'b'
    } else if d == 12 {
        'c'
    } else if d == 13 {
        'd'
    } else if d == 14 {
        'e'
    } else {
        'f'
    }
}

/// `value` in hexadecimal, with zeros in front up to `width` digits.
pub open spec fn hex(value: nat, width: nat) -> Seq<char>
    decreases value, width,
{
    if value < 16 && width <= 1 {
        seq![digit_char(value as int)]
    } else {
        hex(value / 16, if width > 0 { (width - 1) as nat } else { 0 }).push(
            digit_char(value as int % 16),
        )
    }
}

/// `value` in decimal.
pub open spec fn decimal(value: nat) -> Seq<char>
    decreases value,
{
    if value < 10 {
        seq![digit_char(value as int)]
    } else {
        decimal(value / 10).push(digit_char(value as int % 10))
    }
}

/// `true` or `false`.
pub open spec fn truth(b: bool) -> Seq<char> {
    if b {
        "true"@
    } else {
        "false"@
    }
}

/// The numbers of `items` in decimal with `, ` between them.
pub open spec fn bytes_listed(items: Seq<u8>) -> Seq<char>
    decreases items.len(),
{
    if items.len() == 0 {
        Seq::empty()
    } else if items.len() == 1 {
        decimal(items[0] as nat)
    } else {
        bytes_listed(items.drop_last()) + ", "@ + decimal(items.last() as nat)
    }
}

/// The truth values of `items` with `, ` between them.
pub open spec fn flags_listed(items: Seq<bool>) -> Seq<char>
    decreases items.len(),
{
    if items.len() == 0 {
        Seq::empty()
    } else if items.len() == 1 {
        truth(items[0])
    } else {
        flags_listed(items.drop_last()) + ", "@ + truth(items.last())
    }
}

/// One digit as a string.
fn digit_str(d: usize) -> (s: &'static str)
    requires
        d < 16,
    ensures
        s@ == seq![digit_char(d as int)],
{
    proof {
        reveal_strlit("0");
        reveal_strlit("1");
        reveal_strlit("2");
        reveal_strlit("3");
        reveal_strlit("4");
        reveal_strlit("5");
        reveal_strlit("6");
        reveal_strlit("7");
        reveal_strlit("8");
        reveal_strlit("9");
        reveal_strlit("a");
        reveal_strlit("b");
        reveal_strlit("c");
        reveal_strlit("d");
        reveal_strlit("e");
        reveal_strlit("f");
    }
    let s: &'static str = match d {
        0 => "0",
        1 => "1",
        2 => "2",
        3 => "3",
        4 => "4",
        5 => "5",
        6 => "6",
        7 => "7",
        8 => "8",
        9 => "9",
        10 => "a",
        11 => "b",
        12 => "c",
        13 => "d",
        14 => "e",
        _ => "f",
    };
    assert(s@ =~= seq![digit_char(d as int)]);
    s
}

/// `value` in hexadecimal, with zeros in front up to `width` digits.
pub fn hex_string(value: usize, width: usize) -> (s: String)
    ensures
        s@ == hex(value as nat, width as nat),
    decreases value, width,
{
    if value < 16 && width <= 1 {
        String::from_str(digit_str(value))
    } else {
        let mut s: String = hex_string(
            value / 16,
            if width > 0 {
                width - 1
            } else {
                0
            },
        );
        s.append(digit_str(value % 16));
        assert(s@ =~= hex(value as nat, width as nat));
        s
    }
}

/// `value` in decimal.
pub fn decimal_string(value: usize) -> (s: String)
    ensures
        s@ == decimal(value as nat),
    decreases value,
{
    if value < 10 {
        String::from_str(digit_str(value))
    } else {
        let mut s: String = decimal_string(value / 10);
        s.append(digit_str(value % 10));
        assert(s@ =~= decimal(value as nat));
        s
    }
}

/// The numbers of `items` in decimal with `, ` between them.
pub fn bytes_listed_string(items: &[u8]) -> (s: String)
    ensures
        s@ == bytes_listed(items@),
{
    let mut s: String = String::new();
    let n: usize = items.len();
    let mut k: usize = 0;
    while k < n
        invariant
            n == items@.len(),
            k <= n,
            s@ == bytes_listed(items@.take(k as int)),
        decreases n - k,
    {
        assert(items@.take(k as int + 1).drop_last() == items@.take(k as int));
        if k > 0 {
            s.append(", ");
        }
        let number: String = decimal_string(items[k] as usize);
        s.append(number.as_str());
        k += 1;
        assert(s@ =~= bytes_listed(items@.take(k as int)));
    }
    assert(items@.take(n as int) == items@);
    s
}

/// The truth values of `items` with `, ` between them.
pub fn flags_listed_string(items: &[bool]) -> (s: String)
    ensures
        s@ == flags_listed(items@),
{
    let mut s: String = String::new();
    let n: usize = items.len();
    let mut k: usize = 0;
    while k < n
        invariant
            n == items@.len(),
            k <= n,
            s@ == flags_listed(items@.take(k as int)),
        decreases n - k,
    {
        assert(items@.take(k as int + 1).drop_last() == items@.take(k as int));
        if k > 0 {
            s.append(", ");
        }
        if items[k] {
            s.append("true");
        } else {
            s.append("false");
        }
        k += 1;
        assert(s@ =~= flags_listed(items@.take(k as int)));
    }
    assert(items@.take(n as int) == items@);
    s
}

} // verus!
