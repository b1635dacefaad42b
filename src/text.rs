//! Text handling shared by the store and the command line: trimming,
//! reading an index typed by the user, reading a yes/no answer, and the
//! numbered lines that list entries.
use vstd::prelude::*;

verus! {

/// Unicode's White_Space characters.
pub open spec fn is_white_space(c: char) -> bool {
    let u = c as u32;
    (0x9 <= u && u <= 0xD) || u == 0x20 || u == 0x85 || u == 0xA0 || u == 0x1680 || (0x2000 <= u
        && u <= 0x200A) || u == 0x2028 || u == 0x2029 || u == 0x202F || u == 0x205F || u == 0x3000
}

/// A text without its leading and trailing white space.
pub open spec fn trim_of(s: Seq<char>) -> Seq<char>
    decreases s.len(),
{
    if s.len() > 0 && is_white_space(s[0]) {
        trim_of(s.drop_first())
    } else if s.len() > 0 && is_white_space(s.last()) {
        trim_of(s.drop_last())
    } else {
        s
    }
}

/// A text that trims to nothing: empty, or white space only.
pub open spec fn is_blank(s: Seq<char>) -> bool {
    trim_of(s).len() == 0
}

/// Relies on `str::trim`: leading and trailing Unicode White_Space removed.
#[verifier::external_body]
pub(crate) fn trim(s: &str) -> (r: String)
    ensures
        r@ == trim_of(s@),
{
    s.trim().to_string()
}

pub open spec fn is_digit(c: char) -> bool {
    '0' <= c && c <= '9'
}

pub open spec fn digits_value(s: Seq<char>) -> int
    decreases s.len(),
{
    if s.len() == 0 {
        0
    } else {
        10 * digits_value(s.drop_last()) + (s.last() as int - '0' as int)
    }
}

/// The digits of a number, with an optional leading `+` taken off.
pub open spec fn unsigned_digits(s: Seq<char>) -> Seq<char> {
    if s.len() > 0 && s[0] == '+' {
        s.drop_first()
    } else {
        s
    }
}

/// The value of a decimal number written with an optional `+`, when it fits
/// in a `usize`.
pub open spec fn parsed_usize(s: Seq<char>) -> Option<usize> {
    let d = unsigned_digits(s);
    if d.len() > 0 && (forall|i: int| 0 <= i < d.len() ==> is_digit(#[trigger] d[i]))
        && digits_value(d) <= usize::MAX {
        Some(digits_value(d) as usize)
    } else {
        None
    }
}

/// Reads a decimal number written with an optional `+`, as `str::parse`
/// does for a `usize`: see `parsed_usize`.
fn parse_usize(s: &str) -> (r: Option<usize>)
    ensures
        r == parsed_usize(s@),
{
    let n = s.unicode_len();
    let mut start: usize = 0;
    if n > 0 && s.get_char(0) == '+' {
        start = 1;
    }
    let ghost d = unsigned_digits(s@);
    assert(d =~= s@.subrange(start as int, n as int));
    if start == n {
        return None;
    }
    let mut acc: usize = 0;
    let mut overflow = false;
    let mut i: usize = start;
    assert(s@.subrange(start as int, start as int) =~= Seq::<char>::empty());
    while i < n
        invariant
            start <= i <= n,
            n == s@.len(),
            d == s@.subrange(start as int, n as int),
            d == unsigned_digits(s@),
            forall|k: int| start <= k < i ==> is_digit(#[trigger] s@[k]),
            !overflow ==> acc == digits_value(s@.subrange(start as int, i as int)),
            overflow ==> digits_value(s@.subrange(start as int, i as int)) > usize::MAX,
        decreases n - i,
    {
        let c = s.get_char(i);
        if !('0' <= c && c <= '9') {
            proof {
                let k = i - start;
                assert(d[k] == c);
                assert(!is_digit(d[k]));
                assert(0 <= k < d.len());
            }
            return None;
        }
        let v = (c as u32 - '0' as u32) as usize;
        let ghost prev = digits_value(s@.subrange(start as int, i as int));
        assert(s@.subrange(start as int, i + 1).drop_last() =~= s@.subrange(start as int, i as int));
        assert(digits_value(s@.subrange(start as int, i + 1)) == 10 * prev + v);
        if !overflow {
            if acc > (usize::MAX - v) / 10 {
                assert(10 * acc + v > usize::MAX) by (nonlinear_arith)
                    requires
                        acc > (usize::MAX - v) / 10,
                        v <= 9,
                ;
                overflow = true;
            } else {
                assert(10 * acc + v <= usize::MAX) by (nonlinear_arith)
                    requires
                        acc <= (usize::MAX - v) / 10,
                        v <= 9,
                ;
                acc = acc * 10 + v;
            }
        }
        i += 1;
    }
    assert(s@.subrange(start as int, n as int) =~= d);
    assert forall|k: int| 0 <= k < d.len() implies is_digit(#[trigger] d[k]) by {
        assert(d[k] == s@[start + k]);
    }
    if overflow {
        None
    } else {
        Some(acc)
    }
}

/// The index that an answer to "which entry?" selects: the number it holds
/// once trimmed, or 0 when it holds none.
pub open spec fn selected_index(answer: Seq<char>) -> usize {
    match parsed_usize(trim_of(answer)) {
        Some(i) => i,
        None => 0,
    }
}

/// Reads the index that a user typed; anything that is not a number means 0.
pub fn index_from_input(answer: &str) -> (r: usize)
    ensures
        r == selected_index(answer@),
{
    let t = trim(answer);
    match parse_usize(t.as_str()) {
        Some(i) => i,
        None => 0,
    }
}

/// A refusal: exactly `n` or `N`.
pub open spec fn is_refusal_text(s: Seq<char>) -> bool {
    s == seq!['n'] || s == seq!['N']
}

/// Whether a trimmed answer refuses.
pub fn is_refusal(trimmed: &str) -> (r: bool)
    ensures
        r == is_refusal_text(trimmed@),
{
    if trimmed.unicode_len() != 1 {
        return false;
    }
    let c = trimmed.get_char(0);
    proof {
        assert(trimmed@ =~= seq![c]);
    }
    c == 'n' || c == 'N'
}

/// An answer agrees to clear unless, once trimmed, it is `n` or `N`; an
/// empty answer agrees.
pub open spec fn agrees(answer: Seq<char>) -> bool {
    !is_refusal_text(trim_of(answer))
}

/// Reads a yes/no answer whose default is yes.
pub fn confirms(answer: &str) -> (r: bool)
    ensures
        r == agrees(answer@),
{
    let t = trim(answer);
    !is_refusal(t.as_str())
}

pub open spec fn digit_char(d: int) -> char
    recommends
        0 <= d < 10,
{
    seq!['0', '1', '2', '3', '4', '5', '6', '7', '8', '9'][d]
}

/// The decimal digits of a number, without leading zeros.
pub open spec fn decimal(n: nat) -> Seq<char>
    decreases n,
{
    if n < 10 {
        seq![digit_char(n as int)]
    } else {
        decimal(n / 10).push(digit_char((n % 10) as int))
    }
}

/// One entry in a listing: indented, numbered from 0, then the text.
pub open spec fn numbered(i: nat, item: Seq<char>) -> Seq<char> {
    seq![' ', ' ', ' '] + decimal(i) + seq!['.', ' '] + item
}

/// Relies on `usize`'s `to_string`: its decimal digits, without leading zeros.
#[verifier::external_body]
fn decimal_string(i: usize) -> (r: String)
    ensures
        r@ == decimal(i as nat),
{
    i.to_string()
}

/// One line of a listing: see `numbered`.
pub(crate) fn numbered_line(i: usize, item: &str) -> (r: String)
    ensures
        r@ == numbered(i as nat, item@),
{
    let indent = "   ";
    let separator = ". ";
    proof {
        reveal_strlit("   ");
        reveal_strlit(". ");
    }
    let mut r = indent.to_owned();
    let digits = decimal_string(i);
    r.append(digits.as_str());
    r.append(separator);
    r.append(item);
    assert(r@ =~= numbered(i as nat, item@));
    r
}

} // verus!
