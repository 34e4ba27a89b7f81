//! Text: decimal numerals, splitting, trimming and the borders to `std`.
//!
//! The rest of the library speaks of a text as the sequence of its
//! characters; this file holds the few operations on such sequences that the
//! other modules share.

use crate::model::option_view;
use vstd::prelude::*;
use vstd::string::*;
use vstd::utf8::{decode_utf8, valid_utf8};

verus! {

// ---------------------------------------------------------------------
// Decimal numerals
// ---------------------------------------------------------------------

/// The digit `d` as a character; meant for `d < 10`.
pub open spec fn digit_char(d: nat) -> char {
    (d + 48) as char
}

/// The decimal numeral of `n`, without leading zeros.
pub open spec fn decimal(n: nat) -> Seq<char>
    decreases n,
{
    if n < 10 {
        seq![digit_char(n)]
    } else {
        decimal(n / 10).push(digit_char(n % 10))
    }
}

/// One digit as a literal.
fn digit_text(d: u64) -> (r: &'static str)
    requires
        d < 10,
    ensures
        r@ == seq![digit_char(d as nat)],
{
    proof {
        reveal_strlit("0");
        reveal_strlit("1");
        reveal_strlit("2");
        reveal_strlit("3");
        reveal_strlit("4");
        reveal_strlit("5");
        reveal_strlit("6");
        reveal_strlit("7");
        reveal_strlit("8");
        reveal_strlit("9");
    }
    match d {
        0 => "0",
        1 => "1",
        2 => "2",
        3 => "3",
        4 => "4",
        5 => "5",
        6 => "6",
        7 => "7",
        8 => "8",
        _ => "9",
    }
}

/// Renders `n` in decimal.
pub fn decimal_text(n: u64) -> (r: String)
    ensures
        r@ == decimal(n as nat),
    decreases n,
{
    if n < 10 {
        digit_text(n).to_owned()
    } else {
        let mut text = decimal_text(n / 10);
        text.append(digit_text(n % 10));
        proof {
            assert(text@ =~= decimal((n / 10) as nat).push(digit_char((n % 10) as nat)));
        }
        text
    }
}

/// `a` has the smaller code point.
pub open spec fn code_below(a: char, b: char) -> bool {
    (a as u32) < (b as u32)
}

/// `a` sorts strictly before `b`: at the first place where they differ, `a`
/// holds the smaller character.
pub open spec fn sorts_before(a: Seq<char>, b: Seq<char>) -> bool {
    exists|i: int|
        0 <= i < a.len() && i < b.len() && a.take(i) == b.take(i) && code_below(
            #[trigger] a[i],
            b[i],
        )
}

/// Numerals with the same number of digits sort as the numbers do.
pub proof fn decimal_sorts_like_numbers(m: nat, n: nat)
    requires
        m < n,
        decimal(m).len() == decimal(n).len(),
    ensures
        sorts_before(decimal(m), decimal(n)),
    decreases n,
{
    let a = decimal(m);
    let b = decimal(n);
    if n < 10 {
        assert(a[0] as u32 == m + 48 && b[0] as u32 == n + 48);
        assert(a.take(0) =~= b.take(0));
    } else {
        decimal_len_positive(n / 10);
        if m < 10 {
            assert(a.len() == 1);
        }
        let pa = decimal(m / 10);
        let pb = decimal(n / 10);
        if m / 10 < n / 10 {
            decimal_sorts_like_numbers(m / 10, n / 10);
            let i = choose|i: int|
                0 <= i < pa.len() && i < pb.len() && pa.take(i) == pb.take(i)
                    && code_below(#[trigger] pa[i], pb[i]);
            assert(a[i] == pa[i] && b[i] == pb[i]);
            assert(a.take(i) =~= pa.take(i));
            assert(b.take(i) =~= pb.take(i));
        } else {
            assert(m / 10 == n / 10);
            let i = pa.len() as int;
            assert(a[i] as u32 == m % 10 + 48 && b[i] as u32 == n % 10 + 48);
            assert(a.take(i) =~= pa);
            assert(b.take(i) =~= pb);
        }
    }
}

proof fn decimal_len_positive(n: nat)
    ensures
        decimal(n).len() > 0,
    decreases n,
{
    if n >= 10 {
        decimal_len_positive(n / 10);
    }
}

// ---------------------------------------------------------------------
// Comparing, trimming, splitting
// ---------------------------------------------------------------------

/// Whether two texts hold the same characters.
pub fn same_text(a: &str, b: &str) -> (r: bool)
    ensures
        r == (a@ == b@),
{
    a.to_owned() == b.to_owned()
}

/// A copy of an optional text.
pub fn clone_text(text: &Option<String>) -> (r: Option<String>)
    ensures
        option_view(r) == option_view(*text),
{
    match text {
        Some(text) => Some(text.clone()),
        None => None,
    }
}

/// `s` without the run of `c` that it starts with.
pub open spec fn without_leading(s: Seq<char>, c: char) -> Seq<char>
    decreases s.len(),
{
    if s.len() > 0 && s[0] == c {
        without_leading(s.drop_first(), c)
    } else {
        s
    }
}

/// Strips every leading `c`.
pub fn trim_leading(s: &str, c: char) -> (r: &str)
    ensures
        r@ == without_leading(s@, c),
{
    let len: usize = s.unicode_len();
    let mut start: usize = 0;
    let mut open: bool = true;
    proof {
        assert(s@.skip(0) =~= s@);
    }
    for x in it: s.chars()
        invariant
            it.seq() == s@,
            start <= it.index(),
            open ==> start == it.index(),
            without_leading(s@, c) == without_leading(s@.skip(start as int), c),
            !open ==> start < s@.len() && s@[start as int] != c,
            s@.len() == len,
    {
        if open {
            if x == c {
                proof {
                    assert(s@.skip(start as int).drop_first() =~= s@.skip(start + 1));
                }
                start = start + 1;
            } else {
                open = false;
            }
        }
    }
    s.substring_char(start, len)
}

/// The place of the first `c` in `s`, or the length of `s` if it has none.
pub open spec fn first_at(s: Seq<char>, c: char) -> nat
    decreases s.len(),
{
    if s.len() == 0 || s[0] == c {
        0
    } else {
        1 + first_at(s.drop_first(), c)
    }
}

/// The pieces of `s` between the occurrences of `c`; one more piece than
/// there are occurrences.
pub open spec fn split_on(s: Seq<char>, c: char) -> Seq<Seq<char>>
    decreases s.len(),
{
    let i = first_at(s, c) as int;
    if i < s.len() {
        seq![s.take(i)] + split_on(s.skip(i + 1), c)
    } else {
        seq![s]
    }
}

/// A place before which `c` does not stand, and where it does unless it is the
/// end, is [`first_at`].
pub proof fn first_at_is(s: Seq<char>, c: char, i: nat)
    requires
        i <= s.len(),
        forall|j: int| 0 <= j < i ==> s[j] != c,
        i == s.len() || s[i as int] == c,
    ensures
        first_at(s, c) == i,
    decreases s.len(),
{
    if i > 0 {
        assert(s[0] != c);
        let rest = s.drop_first();
        assert forall|j: int| 0 <= j < i - 1 implies rest[j] != c by {
            assert(rest[j] == s[j + 1]);
        }
        first_at_is(rest, c, (i - 1) as nat);
    }
}

/// [`first_at`] is the first place: `c` does not stand before it, and stands
/// there unless it is the end.
pub proof fn first_at_is_first(s: Seq<char>, c: char)
    ensures
        first_at(s, c) <= s.len(),
        forall|j: int| 0 <= j < first_at(s, c) ==> s[j] != c,
        first_at(s, c) < s.len() ==> s[first_at(s, c) as int] == c,
    decreases s.len(),
{
    if s.len() > 0 && s[0] != c {
        let rest = s.drop_first();
        first_at_is_first(rest, c);
        assert forall|j: int| 0 <= j < first_at(s, c) implies s[j] != c by {
            if j > 0 {
                assert(s[j] == rest[j - 1]);
            }
        }
    }
}

/// What stands in `s` before the first `c`; all of `s` if it has none.
pub open spec fn until(s: Seq<char>, c: char) -> Seq<char> {
    s.take(first_at(s, c) as int)
}

/// The part of `s` before the first `c`.
pub fn up_to(s: &str, c: char) -> (r: &str)
    ensures
        r@ == until(s@, c),
{
    let len: usize = s.unicode_len();
    let mut end: usize = 0;
    let mut open: bool = true;
    for x in it: s.chars()
        invariant
            it.seq() == s@,
            s@.len() == len,
            end <= it.index(),
            open ==> end == it.index(),
            forall|j: int| 0 <= j < end ==> s@[j] != c,
            !open ==> end < len && s@[end as int] == c,
    {
        if open {
            if x == c {
                open = false;
            } else {
                end = end + 1;
            }
        }
    }
    proof {
        first_at_is(s@, c, end as nat);
    }
    s.substring_char(0, end)
}

/// The second piece of `s` split at `c`, if `c` occurs at all.
pub fn second_piece(s: &str, c: char) -> (r: Option<&str>)
    ensures
        match r {
            Some(piece) => split_on(s@, c).len() > 1 && piece@ == split_on(s@, c)[1],
            None => split_on(s@, c).len() == 1,
        },
{
    let len: usize = s.unicode_len();
    let mut at: usize = 0;
    let mut first: Option<usize> = None;
    let mut second: Option<usize> = None;
    for x in it: s.chars()
        invariant
            it.seq() == s@,
            s@.len() == len,
            at == it.index(),
            match first {
                None => second is None && forall|j: int| 0 <= j < at ==> s@[j] != c,
                Some(a) => a < at && s@[a as int] == c && (forall|j: int|
                    0 <= j < a ==> s@[j] != c) && match second {
                    None => forall|j: int| a < j < at ==> s@[j] != c,
                    Some(b) => a < b < at && s@[b as int] == c && forall|j: int|
                        a < j < b ==> s@[j] != c,
                },
            },
    {
        if x == c {
            if first.is_none() {
                first = Some(at);
            } else if second.is_none() {
                second = Some(at);
            }
        }
        at = at + 1;
    }
    match first {
        None => {
            proof {
                first_at_is(s@, c, len as nat);
            }
            None
        },
        Some(a) => {
            let end: usize = match second {
                Some(b) => b,
                None => len,
            };
            proof {
                first_at_is(s@, c, a as nat);
                let rest = s@.skip(a + 1);
                assert forall|j: int| 0 <= j < end - a - 1 implies rest[j] != c by {
                    assert(rest[j] == s@[a + 1 + j]);
                }
                first_at_is(rest, c, (end - a - 1) as nat);
                assert(s@.subrange(a + 1, end as int) =~= if end < len {
                    rest.take(end - a - 1)
                } else {
                    rest
                });
                assert(split_on(s@, c)[1] == split_on(rest, c)[0]);
            }
            Some(s.substring_char(a + 1, end))
        },
    }
}

// ---------------------------------------------------------------------
// Borders to `std`
// ---------------------------------------------------------------------

/// `String::from_utf8`: the text that the bytes encode, and nothing if they
/// are not UTF-8. Trusted: `std` documents the conversion as the inverse of
/// taking a string's bytes, refusing exactly the sequences that are not valid
/// UTF-8.
#[verifier::external_body]
pub(crate) fn text_from_utf8(bytes: Vec<u8>) -> (r: Option<String>)
    ensures
        match r {
            Some(text) => valid_utf8(bytes@) && text@ == decode_utf8(bytes@),
            None => !valid_utf8(bytes@),
        },
{
    String::from_utf8(bytes).ok()
}

/// What `{:?}` prints for a `str`: the text in double quotes, with the
/// characters escaped that `str::escape_debug` escapes.
pub uninterp spec fn quoted(text: Seq<char>) -> Seq<char>;

/// The `Debug` rendering of a `str`. Trusted: the rendering is named, not
/// described; `std` gives it as a function of the text alone.
#[verifier::external_body]
pub(crate) fn quoted_text(text: &str) -> (r: String)
    ensures
        r@ == quoted(text@),
{
    format!("{:?}", text)
}

// ---------------------------------------------------------------------
// Laws
// ---------------------------------------------------------------------

/// The number that a row of digits stands for.
pub open spec fn numeral_value(digits: Seq<char>) -> int
    decreases digits.len(),
{
    if digits.len() == 0 {
        0
    } else {
        10 * numeral_value(digits.drop_last()) + (digits.last() as int - 48)
    }
}

/// A numeral stands for its number, is made of digits, and has no zero in front.
pub proof fn decimal_stands_for_the_number(n: nat)
    ensures
        numeral_value(decimal(n)) == n,
        forall|i: int| 0 <= i < decimal(n).len() ==> '0' <= #[trigger] decimal(n)[i] <= '9',
        decimal(n).len() > 0,
        n > 0 ==> decimal(n)[0] != '0',
    decreases n,
{
    let digits = decimal(n);
    if n < 10 {
        assert(digits.drop_last() =~= Seq::empty());
        assert(numeral_value(digits.drop_last()) == 0);
        assert(digits.last() as int == n + 48);
    } else {
        decimal_stands_for_the_number(n / 10);
        assert(digits.drop_last() =~= decimal(n / 10));
        assert(digits.last() as int == n % 10 + 48);
        assert(digits[0] == decimal(n / 10)[0]);
        assert forall|i: int| 0 <= i < digits.len() implies '0' <= #[trigger] digits[i] <= '9' by {
            if i < decimal(n / 10).len() {
                assert(digits[i] == decimal(n / 10)[i]);
            }
        }
    }
}

/// Trimming takes away leading `c` and nothing else, and all of them.
pub proof fn trimming_takes_the_leading_run(s: Seq<char>, c: char)
    ensures
        ({
            let rest = without_leading(s, c);
            let gone = s.len() - rest.len();
            &&& 0 <= gone
            &&& rest == s.skip(gone)
            &&& forall|i: int| 0 <= i < gone ==> s[i] == c
            &&& rest.len() > 0 ==> rest[0] != c
        }),
    decreases s.len(),
{
    if s.len() > 0 && s[0] == c {
        let shorter = s.drop_first();
        trimming_takes_the_leading_run(shorter, c);
        let rest = without_leading(s, c);
        let gone = s.len() - rest.len();
        assert(shorter.skip(gone - 1) =~= s.skip(gone));
        assert forall|i: int| 0 <= i < gone implies s[i] == c by {
            if i > 0 {
                assert(s[i] == shorter[i - 1]);
            }
        }
    } else {
        assert(s.skip(0) =~= s);
    }
}

/// Cutting at `c` keeps what stands before the first `c`, and everything where
/// there is none.
pub proof fn cutting_keeps_the_front(s: Seq<char>, c: char)
    ensures
        ({
            let front = until(s, c);
            &&& front.len() <= s.len()
            &&& front == s.take(front.len() as int)
            &&& !front.contains(c)
            &&& front.len() < s.len() ==> s[front.len() as int] == c
        }),
{
    first_at_is_first(s, c);
}

/// The second piece of a text is what stands between its first and its second
/// `c`, or after its first where there is no second.
pub proof fn the_second_piece_is_between(
    head: Seq<char>,
    piece: Seq<char>,
    tail: Seq<char>,
    c: char,
)
    requires
        !head.contains(c),
        !piece.contains(c),
        tail.len() > 0 ==> tail[0] == c,
    ensures
        split_on(head.push(c) + piece + tail, c).len() > 1,
        split_on(head.push(c) + piece + tail, c)[1] == piece,
{
    let s = head.push(c) + piece + tail;
    assert forall|j: int| 0 <= j < head.len() implies s[j] != c by {
        assert(head.contains(head[j]));
    }
    first_at_is(s, c, head.len());
    let rest = s.skip(head.len() as int + 1);
    assert(rest =~= piece + tail);
    assert forall|j: int| 0 <= j < piece.len() implies rest[j] != c by {
        assert(piece.contains(piece[j]));
    }
    first_at_is(rest, c, piece.len());
    assert(rest.take(piece.len() as int) =~= piece);
    assert(tail.len() == 0 ==> rest =~= piece);
    assert(split_on(rest, c)[0] == piece);
    assert(split_on(s, c) == seq![s.take(head.len() as int)] + split_on(rest, c));
}

/// A text without `c` is one piece.
pub proof fn no_second_piece(s: Seq<char>, c: char)
    requires
        !s.contains(c),
    ensures
        split_on(s, c) == seq![s],
{
    assert forall|j: int| 0 <= j < s.len() implies s[j] != c by {
        assert(s.contains(s[j]));
    }
    first_at_is(s, c, s.len());
}

} // verus!
