use vstd::prelude::*;

verus! {

/// The character of the decimal digit `d` (for `d < 10`).
pub open spec fn digit_char(d: nat) -> char {
    (d + 48) as char
}

/// The decimal numeral of `n`, most significant digit first, without leading zeros.
pub open spec fn decimal(n: nat) -> Seq<char>
    decreases n,
{
    if n < 10 {
        seq![digit_char(n)]
    } else {
        decimal(n / 10) + seq![digit_char(n % 10)]
    }
}

/// A number from 1000 to 9999 has four decimal digits.
pub proof fn lemma_decimal_four_digits(n: nat)
    requires
        1000 <= n < 10000,
    ensures
        decimal(n).len() == 4,
{
    let a = n / 10;
    let b = a / 10;
    let c = b / 10;
    assert(100 <= a < 1000);
    assert(10 <= b < 100);
    assert(1 <= c < 10);
    assert(decimal(c).len() == 1);
    assert(decimal(b).len() == 2);
    assert(decimal(a).len() == 3);
}

/// The decimal numeral of a signed integer: a minus sign before the numeral of its
/// magnitude when it is negative.
pub open spec fn signed_decimal(n: int) -> Seq<char> {
    if n < 0 {
        seq!['-'] + decimal((-n) as nat)
    } else {
        decimal(n as nat)
    }
}

/// The items of `items`, each as a decimal numeral, separated by `", "`.
pub open spec fn decimal_items(items: Seq<usize>) -> Seq<char>
    decreases items.len(),
{
    if items.len() == 0 {
        seq![]
    } else if items.len() == 1 {
        decimal(items[0] as nat)
    } else {
        decimal_items(items.drop_last()) + seq![',', ' '] + decimal(items.last() as nat)
    }
}

/// A list of numbers as Rust prints it with `{:?}`: `[1, 2, 3]`.
pub open spec fn decimal_list(items: Seq<usize>) -> Seq<char> {
    seq!['['] + decimal_items(items) + seq![']']
}

/// The one-character text of a decimal digit.
fn digit_str(d: u64) -> (s: &'static str)
    requires
        d < 10,
    ensures
        s@ == seq![digit_char(d as nat)],
{
    proof {
        reveal_strlit("0");
        reveal_strlit("1");
        reveal_strlit("2");
        reveal_strlit("3");
        reveal_strlit("4");
        reveal_strlit("5");
        reveal_strlit("6");
        reveal_strlit("7");
        reveal_strlit("8");
        reveal_strlit("9");
    }
    let s = match d {
        0 => "0",
        1 => "1",
        2 => "2",
        3 => "3",
        4 => "4",
        5 => "5",
        6 => "6",
        7 => "7",
        8 => "8",
        _ => "9",
    };
    assert(s@ =~= seq![digit_char(d as nat)]);
    s
}

/// Appends the decimal numeral of `n` to `out`.
pub fn push_decimal(out: &mut String, n: u64)
    ensures
        final(out)@ == old(out)@ + decimal(n as nat),
    decreases n,
{
    if n < 10 {
        out.append(digit_str(n));
    } else {
        push_decimal(out, n / 10);
        out.append(digit_str(n % 10));
        assert(out@ =~= old(out)@ + decimal(n as nat));
    }
}

/// Appends the decimal numeral of a signed `n` to `out`.
pub fn push_signed_decimal(out: &mut String, n: i64)
    ensures
        final(out)@ == old(out)@ + signed_decimal(n as int),
{
    if n < 0 {
        proof {
            reveal_strlit("-");
        }
        out.append("-");
        let magnitude: u64 = ((-(n + 1)) as u64) + 1;
        push_decimal(out, magnitude);
        assert(out@ =~= old(out)@ + signed_decimal(n as int));
    } else {
        push_decimal(out, n as u64);
    }
}

/// The decimal numeral of `n`.
pub fn decimal_string(n: u64) -> (s: String)
    ensures
        s@ == decimal(n as nat),
{
    let mut s = String::new();
    push_decimal(&mut s, n);
    assert(s@ =~= decimal(n as nat));
    s
}

/// The decimal numeral of a signed `n`.
pub fn signed_decimal_string(n: i64) -> (s: String)
    ensures
        s@ == signed_decimal(n as int),
{
    let mut s = String::new();
    push_signed_decimal(&mut s, n);
    assert(s@ =~= signed_decimal(n as int));
    s
}

/// A list of numbers as `{:?}` prints it, such as `[10, 20]`.
pub fn decimal_list_string(items: &Vec<usize>) -> (s: String)
    ensures
        s@ == decimal_list(items@),
{
    proof {
        reveal_strlit("[");
        reveal_strlit("]");
        reveal_strlit(", ");
        assert(", "@ =~= seq![',', ' ']);
        assert("["@ =~= seq!['[']);
        assert("]"@ =~= seq![']']);
    }
    let mut s = String::new();
    s.append("[");
    let mut i: usize = 0;
    while i < items.len()
        invariant
            0 <= i <= items.len(),
            s@ == seq!['['] + decimal_items(items@.take(i as int)),
        decreases items.len() - i,
    {
        let ghost before = s@;
        proof {
            reveal_strlit(", ");
            assert(", "@ =~= seq![',', ' ']);
        }
        if i > 0 {
            s.append(", ");
        }
        push_decimal(&mut s, items[i] as u64);
        proof {
            let t = items@.take(i as int + 1);
            assert(t.drop_last() =~= items@.take(i as int));
            assert(t.last() == items@[i as int]);
            if i == 0 {
                assert(items@.take(0) =~= Seq::<usize>::empty());
                assert(decimal_items(t) == decimal(items@[0] as nat));
                assert(s@ =~= seq!['['] + decimal_items(t));
            } else {
                assert(decimal_items(t) == decimal_items(items@.take(i as int)) + seq![',', ' ']
                    + decimal(items@[i as int] as nat));
                assert(s@ =~= seq!['['] + decimal_items(t));
            }
        }
        i = i + 1;
    }
    s.append("]");
    assert(items@.take(items.len() as int) =~= items@);
    assert(s@ =~= decimal_list(items@));
    s
}

} // verus!
