//! Character classes, trimming, decimal numerals and the small string operations that the rest
//! of the library builds its refusals and sealed texts from.
use vstd::arithmetic::power::*;
use vstd::prelude::*;

verus! {

/// A decimal digit.
pub open spec fn is_digit(c: char) -> bool {
    '0' <= c && c <= '9'
}

/// A lowercase hexadecimal digit.
pub open spec fn is_lower_hex_char(c: char) -> bool {
    is_digit(c) || ('a' <= c && c <= 'f')
}

/// Every character is a lowercase hexadecimal digit.
pub open spec fn is_lower_hex(s: Seq<char>) -> bool {
    forall|i: int| 0 <= i < s.len() ==> is_lower_hex_char(#[trigger] s[i])
}

/// The characters with the Unicode `White_Space` property.
pub open spec fn is_white(c: char) -> bool {
    let n = c as int;
    ||| 0x9 <= n <= 0xd
    ||| n == 0x20
    ||| n == 0x85
    ||| n == 0xa0
    ||| n == 0x1680
    ||| 0x2000 <= n <= 0x200a
    ||| n == 0x2028
    ||| n == 0x2029
    ||| n == 0x202f
    ||| n == 0x205f
    ||| n == 0x3000
}

/// The characters of the Unicode general category `Cc`.
pub open spec fn is_control(c: char) -> bool {
    let n = c as int;
    n <= 0x1f || 0x7f <= n <= 0x9f
}

/// `s` without its leading white space.
pub open spec fn trim_start(s: Seq<char>) -> Seq<char>
    decreases s.len(),
{
    if s.len() > 0 && is_white(s[0]) {
        trim_start(s.subrange(1, s.len() as int))
    } else {
        s
    }
}

/// `s` without its trailing white space.
pub open spec fn trim_end(s: Seq<char>) -> Seq<char>
    decreases s.len(),
{
    if s.len() > 0 && is_white(s[s.len() - 1]) {
        trim_end(s.subrange(0, s.len() - 1))
    } else {
        s
    }
}

/// `s` without its surrounding white space.
pub open spec fn trimmed(s: Seq<char>) -> Seq<char> {
    trim_end(trim_start(s))
}

/// `p` is a prefix of `s`.
pub open spec fn has_prefix(s: Seq<char>, p: Seq<char>) -> bool {
    p.len() <= s.len() && s.subrange(0, p.len() as int) == p
}

/// The characters of `s`.
pub fn chars_of(s: &str) -> (v: Vec<char>)
    ensures
        v@ == s@,
{
    let mut v: Vec<char> = Vec::new();
    for c in it: s.chars()
        invariant
            it.seq() == s@,
            v@ == s@.take(it.index() as int),
    {
        v.push(c);
        assert(s@.take(it.index() as int).push(c) == s@.take(it.index() as int + 1));
    }
    assert(s@.take(s@.len() as int) == s@);
    v
}

/// Whether two texts are the same.
pub fn same_text(a: &str, b: &str) -> (r: bool)
    ensures
        r == (a@ == b@),
{
    a.to_owned() == b.to_owned()
}

pub fn lower_hex_char(c: char) -> (r: bool)
    ensures
        r == is_lower_hex_char(c),
{
    ('0' <= c && c <= '9') || ('a' <= c && c <= 'f')
}

/// Whether every character is a lowercase hexadecimal digit.
pub fn all_lower_hex(s: &str) -> (r: bool)
    ensures
        r == is_lower_hex(s@),
{
    let cs = chars_of(s);
    let mut i: usize = 0;
    while i < cs.len()
        invariant
            cs@ == s@,
            i <= cs.len(),
            forall|j: int| 0 <= j < i ==> is_lower_hex_char(#[trigger] s@[j]),
        decreases cs.len() - i,
    {
        if !lower_hex_char(cs[i]) {
            assert(!is_lower_hex_char(s@[i as int]));
            return false;
        }
        i = i + 1;
    }
    true
}

pub fn white(c: char) -> (r: bool)
    ensures
        r == is_white(c),
{
    let n: u32 = c as u32;
    (0x9 <= n && n <= 0xd) || n == 0x20 || n == 0x85 || n == 0xa0 || n == 0x1680
        || (0x2000 <= n && n <= 0x200a) || n == 0x2028 || n == 0x2029 || n == 0x202f
        || n == 0x205f || n == 0x3000
}

pub fn control(c: char) -> (r: bool)
    ensures
        r == is_control(c),
{
    let n: u32 = c as u32;
    n <= 0x1f || (0x7f <= n && n <= 0x9f)
}

/// The text without its surrounding white space.
pub fn trim(s: &str) -> (r: String)
    ensures
        r@ == trimmed(s@),
{
    let cs = chars_of(s);
    let n: usize = cs.len();
    let mut a: usize = 0;
    assert(s@.subrange(0, n as int) == s@);
    while a < n && white(cs[a])
        invariant
            cs@ == s@,
            n == cs.len(),
            a <= n,
            trim_start(s@) == trim_start(s@.subrange(a as int, n as int)),
        decreases n - a,
    {
        let ghost rest = s@.subrange(a as int, n as int);
        assert(rest.subrange(1, rest.len() as int) == s@.subrange(a + 1, n as int));
        a = a + 1;
    }
    let ghost rest = s@.subrange(a as int, n as int);
    assert(trim_start(rest) == rest);
    let mut b: usize = n;
    while a < b && white(cs[b - 1])
        invariant
            cs@ == s@,
            n == cs.len(),
            a <= b <= n,
            trim_end(rest) == trim_end(s@.subrange(a as int, b as int)),
        decreases b,
    {
        let ghost left = s@.subrange(a as int, b as int);
        assert(left.subrange(0, left.len() - 1) == s@.subrange(a as int, b - 1));
        b = b - 1;
    }
    assert(trim_end(s@.subrange(a as int, b as int)) == s@.subrange(a as int, b as int));
    s.substring_char(a, b).to_owned()
}

/// Whether `p` is a prefix of `s`.
pub fn starts_with(s: &str, p: &str) -> (r: bool)
    ensures
        r == has_prefix(s@, p@),
{
    let n: usize = p.unicode_len();
    if s.unicode_len() < n {
        return false;
    }
    same_text(s.substring_char(0, n), p)
}

/// The digit of a value below ten.
pub open spec fn digit_char(n: nat) -> char {
    (('0' as nat) + n) as char
}

/// The value of a decimal digit.
pub open spec fn digit_value(c: char) -> nat {
    (c as nat - '0' as nat) as nat
}

/// The decimal numeral of `n`, without leading zeros.
pub open spec fn decimal(n: nat) -> Seq<char>
    decreases n,
{
    if n < 10 {
        seq![digit_char(n)]
    } else {
        decimal(n / 10).push(digit_char(n % 10))
    }
}

fn digit_text(n: u64) -> (r: String)
    requires
        n < 10,
    ensures
        r@ == seq![digit_char(n as nat)],
{
    proof {
        reveal_strlit("0");
        reveal_strlit("1");
        reveal_strlit("2");
        reveal_strlit("3");
        reveal_strlit("4");
        reveal_strlit("5");
        reveal_strlit("6");
        reveal_strlit("7");
        reveal_strlit("8");
        reveal_strlit("9");
    }
    let d = if n == 0 {
        "0"
    } else if n == 1 {
        "1"
    } else if n == 2 {
        "2"
    } else if n == 3 {
        "3"
    } else if n == 4 {
        "4"
    } else if n == 5 {
        "5"
    } else if n == 6 {
        "6"
    } else if n == 7 {
        "7"
    } else if n == 8 {
        "8"
    } else {
        "9"
    };
    assert(d@ == seq![digit_char(n as nat)]);
    d.to_owned()
}

/// The decimal numeral of `n`.
pub fn decimal_text(n: u64) -> (r: String)
    ensures
        r@ == decimal(n as nat),
    decreases n,
{
    if n < 10 {
        digit_text(n)
    } else {
        let mut r = decimal_text(n / 10);
        let last = digit_text(n % 10);
        r.append(last.as_str());
        assert(r@ == decimal(n as nat));
        r
    }
}

/// `true` or `false`.
pub open spec fn bool_text(b: bool) -> Seq<char> {
    if b {
        "true"@
    } else {
        "false"@
    }
}

pub fn bool_word(b: bool) -> (r: &'static str)
    ensures
        r@ == bool_text(b),
{
    if b {
        "true"
    } else {
        "false"
    }
}

/// The decimal numeral of a count.
pub fn count_text(n: usize) -> (r: String)
    ensures
        r@ == decimal(n as nat),
{
    decimal_text(n as u64)
}

/// Why a text is not an unsigned decimal numeral within a bound.
#[derive(Clone, Copy, PartialEq, Eq, Structural, Debug)]
pub enum NumeralFault {
    Empty,
    InvalidDigit,
    TooLarge,
}

/// What the digits of `s` from the left read as, up to `max`: a character that is no digit is a
/// fault when it is reached, and so is the first digit that takes the value over `max`.
pub open spec fn digits_read(s: Seq<char>, max: nat) -> Result<nat, NumeralFault>
    decreases s.len(),
{
    if s.len() == 0 {
        Ok(0)
    } else {
        match digits_read(s.drop_last(), max) {
            Err(e) => Err(e),
            Ok(v) => if !is_digit(s.last()) {
                Err(NumeralFault::InvalidDigit)
            } else if v * 10 + digit_value(s.last()) > max {
                Err(NumeralFault::TooLarge)
            } else {
                Ok(v * 10 + digit_value(s.last()))
            },
        }
    }
}

/// The digits of a numeral: a leading plus sign is dropped when something follows it.
pub open spec fn numeral_digits(s: Seq<char>) -> Seq<char> {
    if s.len() > 1 && s[0] == '+' {
        s.subrange(1, s.len() as int)
    } else {
        s
    }
}

/// The unsigned number that `s` spells, if it spells one that is at most `max`.
pub open spec fn numeral_read(s: Seq<char>, max: nat) -> Result<nat, NumeralFault> {
    if s.len() == 0 {
        Err(NumeralFault::Empty)
    } else {
        digits_read(numeral_digits(s), max)
    }
}

proof fn lemma_digits_fault_stays(s: Seq<char>, max: nat, n: int)
    requires
        0 <= n <= s.len(),
        digits_read(s.take(n), max) is Err,
    ensures
        digits_read(s, max) == digits_read(s.take(n), max),
    decreases s.len() - n,
{
    if n == s.len() {
        assert(s.take(n) == s);
    } else {
        let longer = s.take(n + 1);
        assert(longer.drop_last() == s.take(n));
        lemma_digits_fault_stays(s, max, n + 1);
    }
}

/// Reads an unsigned decimal numeral that is at most `max`.
pub fn read_unsigned(s: &str, max: u64) -> (r: Result<u64, NumeralFault>)
    ensures
        match r {
            Ok(n) => numeral_read(s@, max as nat) == Ok::<nat, NumeralFault>(n as nat),
            Err(e) => numeral_read(s@, max as nat) == Err::<nat, NumeralFault>(e),
        },
{
    let cs = chars_of(s);
    let n: usize = cs.len();
    if n == 0 {
        return Err(NumeralFault::Empty);
    }
    let start: usize = if n > 1 && cs[0] == '+' { 1 } else { 0 };
    let ghost digits = numeral_digits(s@);
    assert(digits == s@.subrange(start as int, n as int));
    let mut i: usize = start;
    let mut v: u64 = 0;
    assert(digits.take(0).len() == 0);
    while i < n
        invariant
            cs@ == s@,
            n == cs.len(),
            n > 0,
            start <= i <= n,
            digits == numeral_digits(s@),
            digits == s@.subrange(start as int, n as int),
            digits_read(digits.take(i - start), max as nat) == Ok::<nat, NumeralFault>(v as nat),
            v <= max,
        decreases n - i,
    {
        let ghost longer = digits.take(i - start + 1);
        let c: char = cs[i];
        assert(longer.drop_last() == digits.take(i - start));
        assert(longer.last() == c);
        if !('0' <= c && c <= '9') {
            proof {
                lemma_digits_fault_stays(digits, max as nat, i - start + 1);
            }
            return Err(NumeralFault::InvalidDigit);
        }
        let d: u64 = (c as u32 - '0' as u32) as u64;
        assert(d == digit_value(c) && d < 10);
        if max < d || v > max / 10 || v * 10 > max - d {
            proof {
                lemma_digits_fault_stays(digits, max as nat, i - start + 1);
            }
            return Err(NumeralFault::TooLarge);
        }
        v = v * 10 + d;
        i = i + 1;
    }
    assert(digits.take(n - start) == digits);
    Ok(v)
}

/// Reads a count.
pub fn read_count(s: &str) -> (r: Result<usize, NumeralFault>)
    ensures
        match r {
            Ok(n) => numeral_read(s@, usize::MAX as nat) == Ok::<nat, NumeralFault>(n as nat),
            Err(e) => numeral_read(s@, usize::MAX as nat) == Err::<nat, NumeralFault>(e),
        },
{
    match read_unsigned(s, usize::MAX as u64) {
        Ok(n) => {
            proof {
                lemma_read_bounded(s@, usize::MAX as nat);
            }
            Ok(n as usize)
        },
        Err(e) => Err(e),
    }
}

proof fn lemma_digits_bounded(s: Seq<char>, max: nat)
    ensures
        digits_read(s, max) matches Ok(v) ==> v <= max,
    decreases s.len(),
{
    if s.len() > 0 {
        lemma_digits_bounded(s.drop_last(), max);
    }
}

proof fn lemma_read_bounded(s: Seq<char>, max: nat)
    ensures
        numeral_read(s, max) matches Ok(v) ==> v <= max,
{
    lemma_digits_bounded(numeral_digits(s), max);
}

/// Reading a numeral gives back the number it was written from, whenever that is within the
/// bound.
pub proof fn decimal_reads_back(n: nat, max: nat)
    requires
        n <= max,
    ensures
        numeral_read(decimal(n), max) == Ok::<nat, NumeralFault>(n),
{
    lemma_decimal_digits(n, max);
    assert(is_digit(decimal(n)[0])) by {
        lemma_decimal_first(n);
    }
    assert(decimal(n).len() > 0) by {
        lemma_decimal_first(n);
    }
}

proof fn lemma_decimal_first(n: nat)
    ensures
        decimal(n).len() > 0,
        is_digit(decimal(n)[0]),
    decreases n,
{
    if n >= 10 {
        lemma_decimal_first(n / 10);
    }
}

proof fn lemma_decimal_digits(n: nat, max: nat)
    requires
        n <= max,
    ensures
        digits_read(decimal(n), max) == Ok::<nat, NumeralFault>(n),
    decreases n,
{
    let s = decimal(n);
    if n < 10 {
        assert(s.drop_last().len() == 0);
        assert(digits_read(s.drop_last(), max) == Ok::<nat, NumeralFault>(0));
        assert(s.last() == digit_char(n));
    } else {
        lemma_decimal_digits(n / 10, max);
        assert(s.drop_last() == decimal(n / 10));
        assert(s.last() == digit_char(n % 10));
    }
}

/// Names the text that `format!("{:?}", s)` gives for a string: the string in double quotes,
/// escaped as `str`'s `Debug` documents.
pub uninterp spec fn debug_text(s: Seq<char>) -> Seq<char>;

/// Names the text that `format!("{:?}", c)` gives for a character: the character in single
/// quotes, escaped as `char`'s `Debug` documents.
pub uninterp spec fn debug_char_text(c: char) -> Seq<char>;

/// `<str as std::fmt::Debug>::fmt` through `format!`: the result is the named rendering of the
/// text, which depends on the text alone.
#[verifier::external_body]
pub(crate) fn quoted(s: &str) -> (r: String)
    ensures
        r@ == debug_text(s@),
{
    format!("{:?}", s)
}

/// `<char as std::fmt::Debug>::fmt` through `format!`: the result is the named rendering of the
/// character, which depends on the character alone.
#[verifier::external_body]
pub(crate) fn quoted_char(c: char) -> (r: String)
    ensures
        r@ == debug_char_text(c),
{
    format!("{:?}", c)
}

/// A number that is read is within the bound it is read under.
pub proof fn a_numeral_is_within_its_bound(s: Seq<char>, max: nat)
    ensures
        numeral_read(s, max) matches Ok(v) ==> v <= max,
{
    lemma_read_bounded(s, max);
}

/// The value of a row of digits by their places: the last one counts once, and each one before it
/// ten times as much as the next.
pub open spec fn place_value(s: Seq<char>) -> nat
    decreases s.len(),
{
    if s.len() == 0 {
        0
    } else {
        ((s[0] as int - 48) * pow(10, (s.len() - 1) as nat) + place_value(
            s.subrange(1, s.len() as int),
        )) as nat
    }
}

proof fn lemma_place_value_of_last(s: Seq<char>)
    requires
        s.len() > 0,
        forall|i: int| 0 <= i < s.len() ==> '0' <= #[trigger] s[i] && s[i] <= '9',
    ensures
        place_value(s) == place_value(s.drop_last()) * 10 + (s.last() as int - 48),
    decreases s.len(),
{
    let tail = s.subrange(1, s.len() as int);
    lemma_pow0(10);
    if s.len() == 1 {
        assert(place_value(tail) == 0);
        assert(place_value(s.drop_last()) == 0);
        assert((s[0] as int - 48) * pow(10, 0) == s[0] as int - 48) by (nonlinear_arith)
            requires
                pow(10, 0) == 1,
        ;
    } else {
        lemma_place_value_of_last(tail);
        let front = s.drop_last();
        assert(front.subrange(1, front.len() as int) =~= tail.drop_last());
        let n = (s.len() - 2) as nat;
        let d = s[0] as int - 48;
        reveal(pow);
        lemma_pow_positive(10, n);
        lemma_pow_positive(10, n + 1);
        assert(pow(10, n + 1) == 10 * pow(10, n));
        let v = place_value(tail.drop_last()) as int;
        let last = s.last() as int - 48;
        assert(d * pow(10, n) >= 0 && d * pow(10, n + 1) >= 0) by (nonlinear_arith)
            requires
                d >= 0,
                pow(10, n) > 0,
                pow(10, n + 1) > 0,
        ;
        assert(d * pow(10, n + 1) + (v * 10 + last) == (d * pow(10, n) + v) * 10 + last)
            by (nonlinear_arith)
            requires
                pow(10, n + 1) == 10 * pow(10, n),
        ;
    }
}

proof fn lemma_digits_by_place(s: Seq<char>, max: nat)
    ensures
        digits_read(s, max) is Ok <==> (forall|i: int|
            0 <= i < s.len() ==> '0' <= #[trigger] s[i] && s[i] <= '9') && place_value(s) <= max,
        digits_read(s, max) matches Ok(v) ==> v == place_value(s),
    decreases s.len(),
{
    if s.len() > 0 {
        let front = s.drop_last();
        lemma_digits_by_place(front, max);
        if forall|i: int| 0 <= i < s.len() ==> '0' <= #[trigger] s[i] && s[i] <= '9' {
            assert forall|i: int| 0 <= i < front.len() implies '0' <= #[trigger] front[i]
                && front[i] <= '9' by {
                assert(front[i] == s[i]);
            }
            lemma_place_value_of_last(s);
        } else if digits_read(s, max) is Ok {
            assert forall|i: int| 0 <= i < s.len() implies '0' <= #[trigger] s[i] && s[i]
                <= '9' by {
                if i < front.len() {
                    assert(front[i] == s[i]);
                }
            }
        }
    }
}

/// A text is read as a number exactly when it is a row of decimal digits, which one plus sign may
/// lead, whose value by places is within the bound; and it is read as that value.
pub proof fn a_numeral_is_read_by_its_places(s: Seq<char>, max: nat)
    ensures
        s.len() > 0 && s[0] != '+' ==> {
            &&& numeral_read(s, max) is Ok <==> (forall|i: int|
                0 <= i < s.len() ==> '0' <= #[trigger] s[i] && s[i] <= '9') && place_value(s)
                <= max
            &&& numeral_read(s, max) matches Ok(v) ==> v == place_value(s)
        },
        s.len() > 1 && s[0] == '+' && s[1] != '+' ==> numeral_read(s, max) == numeral_read(
            s.subrange(1, s.len() as int),
            max,
        ),
        s.len() > 1 && s[0] == '+' && s[1] == '+' ==> numeral_read(s, max) is Err,
        s.len() == 1 && s[0] == '+' ==> numeral_read(s, max) is Err,
        numeral_read(Seq::empty(), max) == Err::<nat, NumeralFault>(NumeralFault::Empty),
{
    lemma_digits_by_place(s, max);
    if s.len() > 1 {
        let rest = s.subrange(1, s.len() as int);
        lemma_digits_by_place(rest, max);
        assert(rest[0] == s[1]);
    }
}

proof fn lemma_trim_start_cut(s: Seq<char>) -> (a: int)
    ensures
        0 <= a <= s.len(),
        trim_start(s) == s.subrange(a, s.len() as int),
        forall|i: int| 0 <= i < a ==> is_white(#[trigger] s[i]),
        a < s.len() ==> !is_white(s[a]),
    decreases s.len(),
{
    if s.len() > 0 && is_white(s[0]) {
        let tail = s.subrange(1, s.len() as int);
        let b = lemma_trim_start_cut(tail);
        assert(s.subrange(b + 1, s.len() as int) =~= tail.subrange(b, tail.len() as int));
        assert forall|i: int| 0 <= i < b + 1 implies is_white(#[trigger] s[i]) by {
            if i > 0 {
                assert(tail[i - 1] == s[i]);
            }
        }
        b + 1
    } else {
        assert(s.subrange(0, s.len() as int) =~= s);
        0
    }
}

proof fn lemma_trim_end_cut(s: Seq<char>) -> (b: int)
    ensures
        0 <= b <= s.len(),
        trim_end(s) == s.subrange(0, b),
        forall|i: int| b <= i < s.len() ==> is_white(#[trigger] s[i]),
        b > 0 ==> !is_white(s[b - 1]),
    decreases s.len(),
{
    if s.len() > 0 && is_white(s[s.len() - 1]) {
        let front = s.subrange(0, s.len() - 1);
        let b = lemma_trim_end_cut(front);
        assert(s.subrange(0, b) =~= front.subrange(0, b));
        assert forall|i: int| b <= i < s.len() implies is_white(#[trigger] s[i]) by {
            if i < front.len() {
                assert(front[i] == s[i]);
            }
        }
        b
    } else {
        assert(s.subrange(0, s.len() as int) =~= s);
        s.len() as int
    }
}

/// Trimming cuts white space off both ends and nothing else: what is left is one stretch of the
/// text that neither starts nor ends with white space, and everything around it is white space.
pub proof fn trimming_cuts_white_space_off_the_ends(s: Seq<char>)
    ensures
        exists|a: int, b: int|
            0 <= a <= b <= s.len() && trimmed(s) == #[trigger] s.subrange(a, b) && (forall|i: int|
                0 <= i < a || b <= i < s.len() ==> is_white(#[trigger] s[i])),
        trimmed(s).len() > 0 ==> !is_white(trimmed(s)[0]) && !is_white(trimmed(s).last()),
{
    let a = lemma_trim_start_cut(s);
    let rest = trim_start(s);
    let b = lemma_trim_end_cut(rest);
    assert(s.subrange(a, a + b) =~= rest.subrange(0, b));
    assert forall|i: int| 0 <= i < a || a + b <= i < s.len() implies is_white(
        #[trigger] s[i],
    ) by {
        if i >= a {
            assert(rest[i - a] == s[i]);
        }
    }
    if b > 0 {
        assert(rest[0] == s[a]);
        assert(trimmed(s)[0] == rest[0]);
        assert(trimmed(s).last() == rest[b - 1]);
    }
}

/// A text starts with another exactly when it goes on from it.
pub proof fn a_prefix_is_what_a_text_starts_with(s: Seq<char>, p: Seq<char>, rest: Seq<char>)
    ensures
        has_prefix(p + rest, p),
        has_prefix(s, p) ==> s == p + s.subrange(p.len() as int, s.len() as int),
{
    assert((p + rest).subrange(0, p.len() as int) =~= p);
    if has_prefix(s, p) {
        assert(s =~= s.subrange(0, p.len() as int) + s.subrange(p.len() as int, s.len() as int));
    }
}

/// The text says these parts, one after the other, whatever else it says.
pub open spec fn says(text: Seq<char>, parts: Seq<Seq<char>>) -> bool
    decreases parts.len(),
{
    parts.len() == 0 || exists|k: int|
        0 <= k && k + parts.last().len() <= text.len() && text.subrange(k, k + parts.last().len())
            == parts.last() && says(#[trigger] text.subrange(0, k), parts.drop_last())
}

/// A text says itself.
pub broadcast proof fn a_text_says_itself(part: Seq<char>)
    ensures
        #[trigger] says(part, Seq::<Seq<char>>::empty().push(part)),
{
    let parts = Seq::<Seq<char>>::empty().push(part);
    assert(parts.last() == part);
    assert(part.subrange(0, 0int + part.len()) =~= part);
    assert(parts.drop_last() =~= Seq::empty());
    assert(says(part.subrange(0, 0), parts.drop_last()));
}

/// A text that goes on with a part says it after what it said before.
pub broadcast proof fn a_text_says_its_end_last(
    text: Seq<char>,
    parts: Seq<Seq<char>>,
    part: Seq<char>,
)
    requires
        says(text, parts),
    ensures
        #[trigger] says(text + part, parts.push(part)),
{
    let whole = text + part;
    let all = parts.push(part);
    let k = text.len() as int;
    assert(all.last() == part);
    assert(all.drop_last() =~= parts);
    assert(whole.subrange(0, k) =~= text);
    assert(whole.subrange(k, k + part.len()) =~= part);
    assert(says(whole.subrange(0, k), all.drop_last()));
}

/// What a text that is put together says.
pub broadcast group group_says {
    a_text_says_itself,
    a_text_says_its_end_last,
}

/// A flag is told as `true` exactly when it is set, and as `false` otherwise.
pub proof fn a_flag_is_told_as_it_is(b: bool)
    ensures
        bool_text(b) == "true"@ <==> b,
        bool_text(b) == "false"@ <==> !b,
{
    reveal_strlit("true");
    reveal_strlit("false");
    assert("true"@.len() != "false"@.len());
}

} // verus!
