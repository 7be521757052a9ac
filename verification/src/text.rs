//! Strings: comparison, decimal numerals, membership.

use vstd::prelude::*;
use vstd::utf8::*;

verus! {

/// Whether two strings hold the same characters.
pub fn same(a: &str, b: &str) -> (r: bool)
    ensures
        r == (a@ == b@),
{
    let x = a.as_bytes();
    let y = b.as_bytes();
    proof {
        encode_utf8_decode_utf8(a@);
        encode_utf8_decode_utf8(b@);
    }
    if x.len() != y.len() {
        return false;
    }
    let mut i: usize = 0;
    while i < x.len()
        invariant
            i <= x@.len(),
            x@.len() == y@.len(),
            x@ == encode_utf8(a@),
            y@ == encode_utf8(b@),
            forall|j: int| 0 <= j < i ==> x@[j] == y@[j],
        decreases x@.len() - i,
    {
        if x[i] != y[i] {
            return false;
        }
        i = i + 1;
    }
    assert(x@ =~= y@);
    true
}

/// The characters of each string of a list.
pub open spec fn texts(list: Seq<String>) -> Seq<Seq<char>> {
    list.map_values(|s: String| s@)
}

/// Whether `wanted` occurs in `list`.
pub fn listed(list: &Vec<String>, wanted: &str) -> (r: bool)
    ensures
        r == texts(list@).contains(wanted@),
{
    let mut i: usize = 0;
    while i < list.len()
        invariant
            i <= list@.len(),
            forall|j: int| 0 <= j < i ==> list@[j]@ != wanted@,
        decreases list@.len() - i,
    {
        if same(list[i].as_str(), wanted) {
            assert(texts(list@)[i as int] == wanted@);
            return true;
        }
        i = i + 1;
    }
    assert(forall|j: int| 0 <= j < list@.len() ==> #[trigger] texts(list@)[j] == list@[j]@);
    false
}

/// The decimal digit of `d`, for `d` below ten.
pub open spec fn digit(d: nat) -> char {
    (d + 48) as char
}

/// The decimal numeral of `n`, without leading zeros.
pub open spec fn numeral(n: nat) -> Seq<char>
    decreases n,
{
    if n < 10 {
        seq![digit(n)]
    } else {
        numeral(n / 10).push(digit(n % 10))
    }
}

fn digit_str(d: usize) -> (r: &'static str)
    requires
        d < 10,
    ensures
        r@ == seq![digit(d as nat)],
{
    proof {
        reveal_strlit("0");
        reveal_strlit("1");
        reveal_strlit("2");
        reveal_strlit("3");
        reveal_strlit("4");
        reveal_strlit("5");
        reveal_strlit("6");
        reveal_strlit("7");
        reveal_strlit("8");
        reveal_strlit("9");
    }
    match d {
        0 => "0",
        1 => "1",
        2 => "2",
        3 => "3",
        4 => "4",
        5 => "5",
        6 => "6",
        7 => "7",
        8 => "8",
        _ => "9",
    }
}

/// Appends the decimal numeral of `n`.
pub fn push_numeral(out: &mut String, n: usize)
    ensures
        final(out)@ == old(out)@ + numeral(n as nat),
    decreases n,
{
    if n >= 10 {
        push_numeral(out, n / 10);
    }
    out.append(digit_str(n % 10));
}

/// The number that decimal digits stand for.
pub open spec fn value(digits: Seq<char>) -> int
    decreases digits.len(),
{
    if digits.len() == 0 {
        0
    } else {
        10 * value(digits.drop_last()) + (digits.last() as int - '0' as int)
    }
}

/// A numeral is made of decimal digits, stands for its number, and has no leading zero but in
/// that of zero itself.
pub proof fn numeral_stands_for_number(n: nat)
    ensures
        numeral(n).len() > 0,
        forall|i: int| 0 <= i < numeral(n).len() ==> '0' <= #[trigger] numeral(n)[i] <= '9',
        value(numeral(n)) == n,
        numeral(n).len() > 1 ==> numeral(n)[0] != '0',
        n == 0 ==> numeral(n).len() == 1,
    decreases n,
{
    reveal_with_fuel(value, 2);
    if n >= 10 {
        numeral_stands_for_number(n / 10);
        let front = numeral(n / 10);
        assert(numeral(n).drop_last() =~= front);
        assert forall|i: int| 0 <= i < numeral(n).len() implies '0' <= #[trigger] numeral(n)[i]
            <= '9' by {
            if i < front.len() {
                assert(numeral(n)[i] == front[i]);
            }
        }
        assert(numeral(n)[0] == front[0]);
        if front.len() == 1 {
            reveal_with_fuel(value, 2);
            assert(front.drop_last() =~= Seq::<char>::empty());
        }
    } else {
        assert(numeral(n).drop_last() =~= Seq::<char>::empty());
    }
}

/// A list of strings is read string by string.
pub proof fn texts_are_read_one_by_one(list: Seq<String>, other: Seq<String>)
    ensures
        texts(list).len() == list.len(),
        forall|i: int| 0 <= i < list.len() ==> #[trigger] texts(list)[i] == list[i]@,
        texts(list + other) == texts(list) + texts(other),
{
    assert(texts(list + other) =~= texts(list) + texts(other));
}

/// Appending a number leaves what was there, and adds decimal digits that stand for the number.
pub proof fn appended_digits_stand_for_number(out: &mut String, n: usize)
    requires
        call_ensures(push_numeral, (out, n), ()),
    ensures
        final(out)@.len() > old(out)@.len(),
        final(out)@.take(old(out)@.len() as int) == old(out)@,
        value(final(out)@.skip(old(out)@.len() as int)) == n,
{
    numeral_stands_for_number(n as nat);
    assert(final(out)@.take(old(out)@.len() as int) =~= old(out)@);
    assert(final(out)@.skip(old(out)@.len() as int) =~= numeral(n as nat));
}

} // verus!
