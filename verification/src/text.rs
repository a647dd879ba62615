use vstd::prelude::*;
use vstd::string::*;
use vstd::utf8::is_ascii_chars;

verus! {

/// The decimal digit for a number below ten.
pub open spec fn digit_char(d: nat) -> char {
    (48 + d) as char
}

/// The decimal digits of a natural number, most significant first.
pub open spec fn decimal_digits(n: nat) -> Seq<char>
    decreases n,
{
    if n < 10 {
        seq![digit_char(n)]
    } else {
        decimal_digits(n / 10) + seq![digit_char(n % 10)]
    }
}

/// The decimal text of an integer, with a leading minus sign when it is negative.
pub open spec fn decimal_text(n: int) -> Seq<char> {
    if n < 0 {
        seq!['-'] + decimal_digits((-n) as nat)
    } else {
        decimal_digits(n as nat)
    }
}

fn digit_text(d: u64) -> (r: String)
    requires
        d < 10,
    ensures
        r@ == seq![digit_char(d as nat)],
{
    proof {
        reveal_strlit("0");
        reveal_strlit("1");
        reveal_strlit("2");
        reveal_strlit("3");
        reveal_strlit("4");
        reveal_strlit("5");
        reveal_strlit("6");
        reveal_strlit("7");
        reveal_strlit("8");
        reveal_strlit("9");
    }
    let r = match d {
        0 => String::from_str("0"),
        1 => String::from_str("1"),
        2 => String::from_str("2"),
        3 => String::from_str("3"),
        4 => String::from_str("4"),
        5 => String::from_str("5"),
        6 => String::from_str("6"),
        7 => String::from_str("7"),
        8 => String::from_str("8"),
        _ => String::from_str("9"),
    };
    assert(r@ =~= seq![digit_char(d as nat)]);
    r
}

/// The decimal digits of a natural number.
pub fn natural_text(n: u64) -> (r: String)
    ensures
        r@ == decimal_digits(n as nat),
    decreases n,
{
    if n < 10 {
        digit_text(n)
    } else {
        let head = natural_text(n / 10);
        let last = digit_text(n % 10);
        head.concat(last.as_str())
    }
}

/// The decimal text of an `i32`, with a minus sign where it is negative.
pub fn i32_text(n: i32) -> (r: String)
    ensures
        r@ == decimal_text(n as int),
{
    if n < 0 {
        let m: u64 = (0i64 - (n as i64)) as u64;
        let digits = natural_text(m);
        proof {
            reveal_strlit("-");
        }
        String::from_str("-").concat(digits.as_str())
    } else {
        natural_text(n as u64)
    }
}

/// What the standard library's `str::to_lowercase` returns for a text.
pub uninterp spec fn unicode_lowercase(text: Seq<char>) -> Seq<char>;

/// Lowercases a text with the standard library's `str::to_lowercase`.
/// Trusted: claims only that the result is a function of the text alone;
/// the Unicode case mapping itself is left unstated.
#[verifier::external_body]
pub(crate) fn to_lowercase(text: &str) -> (r: String)
    ensures
        r@ == unicode_lowercase(text@),
{
    text.to_lowercase()
}

/// A character with an ASCII capital letter turned into its small letter.
pub open spec fn ascii_lower(c: char) -> char {
    if 'A' <= c <= 'Z' {
        ((c as int) + 32) as char
    } else {
        c
    }
}

/// A text with its ASCII capital letters turned into small letters.
pub open spec fn ascii_lowercase(text: Seq<char>) -> Seq<char> {
    text.map_values(|c: char| ascii_lower(c))
}

/// Whether a text, with its ASCII capitals made small, is a given text.
pub fn lowercases_to(text: &str, lowered: &str) -> (r: bool)
    ensures
        r == (ascii_lowercase(text@) == lowered@),
{
    let n = text.unicode_len();
    if n != lowered.unicode_len() {
        assert(ascii_lowercase(text@).len() != lowered@.len());
        return false;
    }
    let mut i: usize = 0;
    while i < n
        invariant
            n == text@.len(),
            n == lowered@.len(),
            i <= n,
            forall|j: int| 0 <= j < i ==> ascii_lower(text@[j]) == lowered@[j],
        decreases n - i,
    {
        let c = text.get_char(i);
        let t = lowered.get_char(i);
        let same = if 'A' <= c && c <= 'Z' {
            (c as u32) + 32 == (t as u32)
        } else {
            c == t
        };
        if !same {
            assert(ascii_lowercase(text@)[i as int] != lowered@[i as int]);
            return false;
        }
        i = i + 1;
    }
    assert(ascii_lowercase(text@) =~= lowered@);
    true
}

/// Whether a text is made of ASCII characters only.
pub fn all_ascii(text: &str) -> (r: bool)
    ensures
        r == is_ascii_chars(text@),
{
    text.is_ascii()
}

/// Whether a text begins with a given prefix, compared character by character.
pub fn starts_with(text: &str, prefix: &str) -> (r: bool)
    ensures
        r == prefix@.is_prefix_of(text@),
{
    let n = prefix.unicode_len();
    let m = text.unicode_len();
    if n > m {
        return false;
    }
    let mut i: usize = 0;
    while i < n
        invariant
            n == prefix@.len(),
            m == text@.len(),
            n <= m,
            i <= n,
            forall|j: int| 0 <= j < i ==> prefix@[j] == text@[j],
        decreases n - i,
    {
        if prefix.get_char(i) != text.get_char(i) {
            return false;
        }
        i = i + 1;
    }
    true
}

/// Whether two texts are equal, compared character by character.
pub fn same_text(a: &str, b: &str) -> (r: bool)
    ensures
        r == (a@ == b@),
{
    let n = a.unicode_len();
    if n != b.unicode_len() {
        return false;
    }
    let r = starts_with(a, b);
    proof {
        if r {
            assert(a@ =~= b@);
        }
    }
    r
}

/// The number that a text of decimal digits stands for.
pub open spec fn digits_value(digits: Seq<char>) -> int
    decreases digits.len(),
{
    if digits.len() == 0 {
        0
    } else {
        digits_value(digits.drop_last()) * 10 + (digits.last() as int - 48)
    }
}

/// Whether every character of a text is a decimal digit.
pub open spec fn all_digits(text: Seq<char>) -> bool {
    forall|i: int| 0 <= i < text.len() ==> '0' <= #[trigger] text[i] <= '9'
}

/// The decimal digits of a number are digits, do not begin with a zero
/// unless the number is zero, and stand for the number.
pub proof fn lemma_decimal_digits(n: nat)
    ensures
        all_digits(decimal_digits(n)),
        decimal_digits(n).len() > 0,
        decimal_digits(n)[0] == '0' ==> n == 0,
        digits_value(decimal_digits(n)) == n,
    decreases n,
{
    if n >= 10 {
        lemma_decimal_digits(n / 10);
        let d = decimal_digits(n);
        let head = decimal_digits(n / 10);
        assert(d.drop_last() =~= head);
        assert(d[0] == head[0]);
        assert(d.last() == digit_char(n % 10));
        assert(digit_char(n % 10) as int == 48 + n % 10);
        assert(digits_value(d) == digits_value(head) * 10 + (n % 10));
        assert(n == (n / 10) * 10 + n % 10);
    } else {
        let d = decimal_digits(n);
        assert(d.drop_last() =~= Seq::<char>::empty());
        assert(digits_value(Seq::<char>::empty()) == 0);
        assert(digit_char(n) as int == 48 + n);
    }
}

/// The decimal text of an integer is a minus sign exactly for a negative
/// number, followed by the digits of its magnitude.
pub proof fn lemma_decimal_text(n: int)
    ensures
        (decimal_text(n)[0] == '-') <==> n < 0,
        n < 0 ==> digits_value(decimal_text(n).drop_first()) == -n && all_digits(decimal_text(n).drop_first()),
        n >= 0 ==> digits_value(decimal_text(n)) == n && all_digits(decimal_text(n)),
{
    if n < 0 {
        lemma_decimal_digits((-n) as nat);
        assert(decimal_text(n).drop_first() =~= decimal_digits((-n) as nat));
    } else {
        lemma_decimal_digits(n as nat);
    }
}

/// ASCII lowercasing turns exactly the capitals `A` to `Z` into the small
/// letters 32 code points further, and keeps every other character.
pub proof fn lemma_ascii_lowercase(text: Seq<char>)
    ensures
        ascii_lowercase(text).len() == text.len(),
        forall|i: int| 0 <= i < text.len() ==> {
            &&& ('A' <= text[i] <= 'Z' ==> #[trigger] ascii_lowercase(text)[i] as int == text[i] as int + 32)
            &&& (!('A' <= text[i] <= 'Z') ==> ascii_lowercase(text)[i] == text[i])
        },
{
}

} // verus!
