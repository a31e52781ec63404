//! Text utilities shared by the other modules: exact string comparison,
//! Unicode lower-casing and white-space tests, and decimal rendering of
//! integers.
use vstd::prelude::*;

verus! {

/// Returns whether two strings hold the same characters.
pub fn str_eq(a: &str, b: &str) -> (r: bool)
    ensures
        r == (a@ == b@),
{
    let n = a.unicode_len();
    if n != b.unicode_len() {
        return false;
    }
    let mut i: usize = 0;
    while i < n
        invariant
            n == a@.len(),
            n == b@.len(),
            i <= n,
            forall|j: int| 0 <= j < i ==> a@[j] == b@[j],
        decreases n - i,
    {
        if a.get_char(i) != b.get_char(i) {
            return false;
        }
        i = i + 1;
    }
    assert(a@ =~= b@);
    true
}

/// What Rust's `str::to_lowercase` returns for a string: the full Unicode
/// lower-case mapping of every character, taken in context.
pub uninterp spec fn spec_to_lowercase(s: Seq<char>) -> Seq<char>;

/// Lower-cases a string with std's `str::to_lowercase`.
///
/// Trusted: the contract only names the result (`spec_to_lowercase`); the
/// Unicode case tables are not restated here.
#[verifier::external_body]
pub(crate) fn to_lowercase(s: &str) -> (r: String)
    ensures
        r@ == spec_to_lowercase(s@),
{
    s.to_lowercase()
}

/// The Unicode `White_Space` property: the code points U+0009 to U+000D,
/// U+0020, U+0085, U+00A0, U+1680, U+2000 to U+200A, U+2028, U+2029, U+202F,
/// U+205F and U+3000.
pub open spec fn spec_is_white_space(c: char) -> bool {
    let v = c as u32;
    ||| 0x9 <= v <= 0xD
    ||| v == 0x20
    ||| v == 0x85
    ||| v == 0xA0
    ||| v == 0x1680
    ||| 0x2000 <= v <= 0x200A
    ||| v == 0x2028
    ||| v == 0x2029
    ||| v == 0x202F
    ||| v == 0x205F
    ||| v == 0x3000
}

/// Tests a character for the Unicode `White_Space` property, as std's
/// `char::is_whitespace` does.
pub(crate) fn char_is_whitespace(c: char) -> (r: bool)
    ensures
        r == spec_is_white_space(c),
{
    let v = c as u32;
    (0x9 <= v && v <= 0xD) || v == 0x20 || v == 0x85 || v == 0xA0 || v == 0x1680 || (0x2000 <= v && v
        <= 0x200A) || v == 0x2028 || v == 0x2029 || v == 0x202F || v == 0x205F || v == 0x3000
}

/// Whether a text contains a character with the `White_Space` property.
pub open spec fn spec_has_white_space(s: Seq<char>) -> bool {
    exists|i: int| 0 <= i < s.len() && spec_is_white_space(#[trigger] s[i])
}

/// Returns whether some character of `s` has the `White_Space` property.
pub fn has_whitespace(s: &str) -> (r: bool)
    ensures
        r == spec_has_white_space(s@),
{
    let n = s.unicode_len();
    let mut i: usize = 0;
    while i < n
        invariant
            n == s@.len(),
            i <= n,
            forall|j: int| 0 <= j < i ==> !spec_is_white_space(#[trigger] s@[j]),
        decreases n - i,
    {
        if char_is_whitespace(s.get_char(i)) {
            return true;
        }
        i = i + 1;
    }
    false
}

/// The decimal digit character for `d` (`'0'` to `'9'`).
pub open spec fn spec_digit(d: int) -> char {
    if d == 0 {
        '0'
    } else if d == 1 {
        '1'
    } else if d == 2 {
        '2'
    } else if d == 3 {
        '3'
    } else if d == 4 {
        '4'
    } else if d == 5 {
        '5'
    } else if d == 6 {
        '6'
    } else if d == 7 {
        '7'
    } else if d == 8 {
        '8'
    } else {
        '9'
    }
}

/// The decimal digits of a natural number, most significant first, with no
/// leading zero (zero itself is `"0"`).
pub open spec fn spec_nat_digits(n: nat) -> Seq<char>
    decreases n,
{
    if n < 10 {
        seq![spec_digit(n as int)]
    } else {
        spec_nat_digits(n / 10) + seq![spec_digit((n % 10) as int)]
    }
}

/// The decimal rendering of an integer, as `{}` formats it: a `-` before the
/// digits of a negative number.
pub open spec fn spec_decimal(n: int) -> Seq<char> {
    if n < 0 {
        seq!['-'] + spec_nat_digits((-n) as nat)
    } else {
        spec_nat_digits(n as nat)
    }
}

/// The decimal digits of `n`, with leading zeros up to `width` characters,
/// as `{:0width$}` formats it.
pub open spec fn spec_zero_padded(n: nat, width: nat) -> Seq<char> {
    let digits = spec_nat_digits(n);
    if digits.len() < width {
        Seq::new((width - digits.len()) as nat, |i: int| '0') + digits
    } else {
        digits
    }
}

fn digit_str(d: u64) -> (s: &'static str)
    requires
        d < 10,
    ensures
        s@ == seq![spec_digit(d as int)],
{
    if d == 0 {
        proof {
            reveal_strlit("0");
        }
        assert("0"@ =~= seq!['0']);
        "0"
    } else if d == 1 {
        proof {
            reveal_strlit("1");
        }
        assert("1"@ =~= seq!['1']);
        "1"
    } else if d == 2 {
        proof {
            reveal_strlit("2");
        }
        assert("2"@ =~= seq!['2']);
        "2"
    } else if d == 3 {
        proof {
            reveal_strlit("3");
        }
        assert("3"@ =~= seq!['3']);
        "3"
    } else if d == 4 {
        proof {
            reveal_strlit("4");
        }
        assert("4"@ =~= seq!['4']);
        "4"
    } else if d == 5 {
        proof {
            reveal_strlit("5");
        }
        assert("5"@ =~= seq!['5']);
        "5"
    } else if d == 6 {
        proof {
            reveal_strlit("6");
        }
        assert("6"@ =~= seq!['6']);
        "6"
    } else if d == 7 {
        proof {
            reveal_strlit("7");
        }
        assert("7"@ =~= seq!['7']);
        "7"
    } else if d == 8 {
        proof {
            reveal_strlit("8");
        }
        assert("8"@ =~= seq!['8']);
        "8"
    } else {
        proof {
            reveal_strlit("9");
        }
        assert("9"@ =~= seq!['9']);
        "9"
    }
}

fn append_nat_digits(n: u64, out: &mut String)
    ensures
        final(out)@ == old(out)@ + spec_nat_digits(n as nat),
    decreases n,
{
    if n >= 10 {
        append_nat_digits(n / 10, out);
    }
    out.append(digit_str(n % 10));
    proof {
        if n >= 10 {
            assert(final(out)@ =~= old(out)@ + spec_nat_digits(n as nat));
        } else {
            assert(final(out)@ =~= old(out)@ + spec_nat_digits(n as nat));
        }
    }
}

/// Renders an integer in decimal, as `format!("{}", n)` does.
pub fn decimal_i64(n: i64) -> (s: String)
    ensures
        s@ == spec_decimal(n as int),
{
    let mut s = String::new();
    if n < 0 {
        proof {
            reveal_strlit("-");
        }
        s.append("-");
        let m: u64 = ((-(n + 1)) as u64) + 1;
        append_nat_digits(m, &mut s);
        assert(s@ =~= spec_decimal(n as int));
    } else {
        append_nat_digits(n as u64, &mut s);
        assert(s@ =~= spec_decimal(n as int));
    }
    s
}

/// Renders an unsigned integer in decimal, as `format!("{}", n)` does.
pub fn decimal_u64(n: u64) -> (s: String)
    ensures
        s@ == spec_nat_digits(n as nat),
{
    let mut s = String::new();
    append_nat_digits(n, &mut s);
    assert(s@ =~= spec_nat_digits(n as nat));
    s
}

/// Distinct natural numbers have distinct digit strings.
pub proof fn lemma_nat_digits_injective(a: nat, b: nat)
    requires
        a != b,
    ensures
        spec_nat_digits(a) != spec_nat_digits(b),
    decreases a + b,
{
    if a < 10 && b < 10 {
        assert(spec_nat_digits(a)[0] != spec_nat_digits(b)[0]);
    } else if a < 10 {
        assert(spec_nat_digits(b).len() >= 2) by {
            lemma_nat_digits_nonempty(b / 10);
        }
    } else if b < 10 {
        assert(spec_nat_digits(a).len() >= 2) by {
            lemma_nat_digits_nonempty(a / 10);
        }
    } else {
        let da = spec_nat_digits(a);
        let db = spec_nat_digits(b);
        if da == db {
            lemma_nat_digits_nonempty(a / 10);
            lemma_nat_digits_nonempty(b / 10);
            assert(da.last() == db.last());
            assert(a % 10 == b % 10) by {
                lemma_digit_injective((a % 10) as int, (b % 10) as int);
            }
            assert(da.drop_last() =~= spec_nat_digits(a / 10));
            assert(db.drop_last() =~= spec_nat_digits(b / 10));
            assert(a / 10 != b / 10);
            lemma_nat_digits_injective(a / 10, b / 10);
        }
    }
}

/// The digit string of a natural number is never empty and starts with a digit.
pub proof fn lemma_nat_digits_nonempty(n: nat)
    ensures
        spec_nat_digits(n).len() >= 1,
        spec_nat_digits(n)[0] != '-',
    decreases n,
{
    if n >= 10 {
        lemma_nat_digits_nonempty(n / 10);
    }
}

proof fn lemma_digit_injective(a: int, b: int)
    requires
        0 <= a < 10,
        0 <= b < 10,
        spec_digit(a) == spec_digit(b),
    ensures
        a == b,
{
}

/// Distinct integers have distinct decimal renderings.
pub proof fn lemma_decimal_injective(a: int, b: int)
    requires
        a != b,
    ensures
        spec_decimal(a) != spec_decimal(b),
{
    lemma_nat_digits_nonempty((-a) as nat);
    lemma_nat_digits_nonempty((-b) as nat);
    lemma_nat_digits_nonempty(a as nat);
    lemma_nat_digits_nonempty(b as nat);
    if a < 0 && b < 0 {
        lemma_nat_digits_injective((-a) as nat, (-b) as nat);
        let sa = spec_decimal(a);
        let sb = spec_decimal(b);
        if sa == sb {
            assert(sa.drop_first() =~= spec_nat_digits((-a) as nat));
            assert(sb.drop_first() =~= spec_nat_digits((-b) as nat));
        }
    } else if a >= 0 && b >= 0 {
        lemma_nat_digits_injective(a as nat, b as nat);
    } else if a < 0 {
        assert(spec_decimal(a)[0] == '-');
    } else {
        assert(spec_decimal(b)[0] == '-');
    }
}

} // verus!
