//! The heartbeat files: the current time as the watchdog writes it, and the
//! time of the next reset as the guest writes it.

use vstd::prelude::*;
use vstd::string::*;

verus! {

/// The file in the guest into which the watchdog writes the current Unix time.
pub const CURRENT_TIME_PATH: &'static str = "/tmp/watchdog_current_unix_time";

/// The file in the guest that holds the Unix time after which the guest
/// wants to be reset.
pub const RESET_AFTER_PATH: &'static str = "/tmp/watchdog_reset_after";

/// Whether `c` is white space, as Unicode's property White_Space defines it.
pub open spec fn is_space(c: char) -> bool {
    let u = c as u32;
    ||| 0x09 <= u <= 0x0D
    ||| u == 0x20
    ||| u == 0x85
    ||| u == 0xA0
    ||| u == 0x1680
    ||| 0x2000 <= u <= 0x200A
    ||| u == 0x2028
    ||| u == 0x2029
    ||| u == 0x202F
    ||| u == 0x205F
    ||| u == 0x3000
}

/// Whether `c` is one of the ten decimal digits.
pub open spec fn is_digit(c: char) -> bool {
    0x30 <= c as u32 <= 0x39
}

/// The number that the decimal digit `c` stands for.
pub open spec fn digit_value(c: char) -> nat {
    (c as u32 - 0x30) as nat
}

/// The decimal digit that stands for `d`, for `d` below ten.
pub open spec fn digit_char(d: nat) -> char {
    if d == 0 {
        '0'
    } else if d == 1 {
        '1'
    } else if d == 2 {
        '2'
    } else if d == 3 {
        '3'
    } else if d == 4 {
        '4'
    } else if d == 5 {
        '5'
    } else if d == 6 {
        '6'
    } else if d == 7 {
        '7'
    } else if d == 8 {
        '8'
    } else {
        '9'
    }
}

/// `s` without the white space at its start.
pub open spec fn trim_start(s: Seq<char>) -> Seq<char>
    decreases s.len(),
{
    if s.len() > 0 && is_space(s.first()) {
        trim_start(s.drop_first())
    } else {
        s
    }
}

/// `s` without the white space at its end.
pub open spec fn trim_end(s: Seq<char>) -> Seq<char>
    decreases s.len(),
{
    if s.len() > 0 && is_space(s.last()) {
        trim_end(s.drop_last())
    } else {
        s
    }
}

/// `s` without the white space at its start and at its end.
pub open spec fn trimmed(s: Seq<char>) -> Seq<char> {
    trim_end(trim_start(s))
}

/// Whether `s` holds decimal digits only.
pub open spec fn all_digits(s: Seq<char>) -> bool {
    forall|i: int| 0 <= i < s.len() ==> is_digit(#[trigger] s[i])
}

/// The number that the decimal digits `s` stand for, the most significant first.
pub open spec fn digits_value(s: Seq<char>) -> nat
    decreases s.len(),
{
    if s.len() == 0 {
        0
    } else {
        digits_value(s.drop_last()) * 10 + digit_value(s.last())
    }
}

/// The number that `s` denotes: an optional plus sign, then at least one
/// decimal digit and nothing else, for a number that fits in 64 bits.
pub open spec fn parse_decimal(s: Seq<char>) -> Option<u64> {
    let digits = if s.len() > 0 && s.first() == '+' {
        s.drop_first()
    } else {
        s
    };
    if digits.len() > 0 && all_digits(digits) && digits_value(digits) <= u64::MAX {
        Some(digits_value(digits) as u64)
    } else {
        None
    }
}

/// The Unix time that the content `s` of the guest's file names, if it names
/// one: white space around the number is passed over.
pub open spec fn reset_after_of(s: Seq<char>) -> Option<u64> {
    parse_decimal(trimmed(s))
}

/// The decimal digits of `n`, the most significant first, without leading zeros.
pub open spec fn decimal(n: nat) -> Seq<char>
    decreases n,
{
    if n < 10 {
        seq![digit_char(n)]
    } else {
        decimal(n / 10).push(digit_char(n % 10))
    }
}

/// Where the white space at the start of `s` ends, the rest of `s` is its
/// `trim_start`.
pub proof fn lemma_trim_start(s: Seq<char>, a: int)
    requires
        0 <= a <= s.len(),
        forall|k: int| 0 <= k < a ==> is_space(#[trigger] s[k]),
        a < s.len() ==> !is_space(s[a]),
    ensures
        trim_start(s) == s.subrange(a, s.len() as int),
    decreases a,
{
    if a == 0 {
        assert(s.subrange(0, s.len() as int) =~= s);
    } else {
        assert(is_space(s[0]));
        let rest = s.drop_first();
        assert forall|k: int| 0 <= k < a - 1 implies is_space(#[trigger] rest[k]) by {
            assert(rest[k] == s[k + 1]);
        }
        lemma_trim_start(rest, a - 1);
        assert(rest.subrange(a - 1, rest.len() as int) =~= s.subrange(a, s.len() as int));
    }
}

/// Where the white space at the end of `s` begins, what stands before it is
/// the `trim_end` of `s`.
pub proof fn lemma_trim_end(s: Seq<char>, b: int)
    requires
        0 <= b <= s.len(),
        forall|k: int| b <= k < s.len() ==> is_space(#[trigger] s[k]),
        b > 0 ==> !is_space(s[b - 1]),
    ensures
        trim_end(s) == s.subrange(0, b),
    decreases s.len() - b,
{
    if b == s.len() {
        assert(s.subrange(0, b) =~= s);
    } else {
        assert(is_space(s[s.len() - 1]));
        let rest = s.drop_last();
        lemma_trim_end(rest, b);
        assert(rest.subrange(0, b) =~= s.subrange(0, b));
    }
}

/// The value of the first digits of `s` is at most the value of `s`.
pub proof fn lemma_digits_value_grows(s: Seq<char>, i: int)
    requires
        0 <= i <= s.len(),
    ensures
        digits_value(s.take(i)) <= digits_value(s),
    decreases s.len(),
{
    if i == s.len() {
        assert(s.take(i) =~= s);
    } else {
        lemma_digits_value_grows(s.drop_last(), i);
        assert(s.drop_last().take(i) =~= s.take(i));
    }
}

/// The decimal digits of a number are digits, and they stand for the number.
pub proof fn lemma_decimal_stands_for(n: nat)
    ensures
        decimal(n).len() > 0,
        all_digits(decimal(n)),
        digits_value(decimal(n)) == n,
    decreases n,
{
    if n < 10 {
        let s = decimal(n);
        assert(s.drop_last() =~= Seq::<char>::empty());
        assert(digits_value(s.drop_last()) == 0);
        assert(digit_value(digit_char(n)) == n);
    } else {
        lemma_decimal_stands_for(n / 10);
        let s = decimal(n);
        assert(s.drop_last() =~= decimal(n / 10));
        assert(s.last() == digit_char(n % 10));
        assert(digit_value(digit_char(n % 10)) == n % 10);
        assert forall|i: int| 0 <= i < s.len() implies is_digit(#[trigger] s[i]) by {
            if i < s.len() - 1 {
                assert(s[i] == decimal(n / 10)[i]);
            }
        }
    }
}

/// What the watchdog writes as a time reads back as that time.
pub proof fn lemma_written_time_reads_back(n: u64)
    ensures
        reset_after_of(decimal(n as nat)) == Some(n),
{
    let s = decimal(n as nat);
    lemma_decimal_stands_for(n as nat);
    assert(is_digit(s[0]));
    assert(is_digit(s[s.len() - 1]));
    assert(trim_start(s) == s);
    assert(trim_end(s) == s);
}

/// Whether `c` is white space.
pub fn is_whitespace(c: char) -> (b: bool)
    ensures
        b == is_space(c),
{
    let u: u32 = c as u32;
    (0x09 <= u && u <= 0x0D) || u == 0x20 || u == 0x85 || u == 0xA0 || u == 0x1680 || (0x2000
        <= u && u <= 0x200A) || u == 0x2028 || u == 0x2029 || u == 0x202F || u == 0x205F || u
        == 0x3000
}

/// The characters of `text`, in order.
pub fn chars_of(text: &str) -> (chars: Vec<char>)
    ensures
        chars@ == text@,
{
    let mut chars: Vec<char> = Vec::new();
    for c in it: text.chars()
        invariant
            chars@ == it.seq().take(it.index() as int),
            it.seq() == text@,
    {
        chars.push(c);
    }
    chars
}

/// Reads the Unix time that the guest wrote: white space around it is
/// passed over, a plus sign may stand before it, and its digits must name a
/// number that fits in 64 bits.
pub fn parse_reset_after(text: &str) -> (r: Option<u64>)
    ensures
        r == reset_after_of(text@),
{
    let chars = chars_of(text);
    let n: usize = chars.len();
    let mut start: usize = 0;
    while start < n && is_whitespace(chars[start])
        invariant
            start <= n,
            n == chars@.len(),
            forall|k: int| 0 <= k < start ==> is_space(#[trigger] chars@[k]),
        decreases n - start,
    {
        start += 1;
    }
    let mut end: usize = n;
    while end > start && is_whitespace(chars[end - 1])
        invariant
            start <= end <= n,
            n == chars@.len(),
            forall|k: int| end <= k < n ==> is_space(#[trigger] chars@[k]),
        decreases end,
    {
        end -= 1;
    }
    let ghost body = chars@.subrange(start as int, end as int);
    proof {
        lemma_trim_start(chars@, start as int);
        let rest = chars@.subrange(start as int, n as int);
        assert forall|k: int| end - start <= k < rest.len() implies is_space(
            #[trigger] rest[k],
        ) by {
            assert(rest[k] == chars@[k + start]);
        }
        lemma_trim_end(rest, end - start);
        assert(rest.subrange(0, end - start) =~= body);
        assert(trimmed(text@) == body);
    }
    let mut i: usize = start;
    if i < end && chars[i] == '+' {
        i += 1;
    }
    let first: usize = i;
    let ghost digits = chars@.subrange(first as int, end as int);
    proof {
        if first > start {
            assert(body.first() == '+');
            assert(body.drop_first() =~= digits);
        } else {
            assert(body =~= digits);
            if body.len() > 0 {
                assert(body.first() == chars@[start as int]);
            }
        }
    }
    assert(reset_after_of(text@) == if digits.len() > 0 && all_digits(digits) && digits_value(
        digits,
    ) <= u64::MAX {
        Some(digits_value(digits) as u64)
    } else {
        None
    });
    if i == end {
        return None;
    }
    let mut value: u64 = 0;
    assert(digits.take(0) =~= Seq::<char>::empty());
    while i < end
        invariant
            first <= i <= end <= n,
            n == chars@.len(),
            digits == chars@.subrange(first as int, end as int),
            reset_after_of(text@) == if digits.len() > 0 && all_digits(digits) && digits_value(
                digits,
            ) <= u64::MAX {
                Some(digits_value(digits) as u64)
            } else {
                None
            },
            all_digits(digits.take(i - first)),
            value == digits_value(digits.take(i - first)),
        decreases end - i,
    {
        let c: char = chars[i];
        let u: u32 = c as u32;
        assert(digits[i - first] == c);
        if u < 0x30 || u > 0x39 {
            return None;
        }
        let d: u64 = (u - 0x30) as u64;
        let ghost longer = digits.take(i - first + 1);
        proof {
            assert(longer.drop_last() =~= digits.take(i - first));
            assert(longer.last() == c);
            lemma_digits_value_grows(digits, i - first + 1);
        }
        if value > (u64::MAX - d) / 10 {
            return None;
        }
        value = value * 10 + d;
        i += 1;
    }
    assert(digits.take(end - first) =~= digits);
    Some(value)
}

/// The text of one decimal digit.
fn digit_text(d: u64) -> (s: &'static str)
    requires
        d < 10,
    ensures
        s@ == seq![digit_char(d as nat)],
{
    proof {
        reveal_strlit("0");
        reveal_strlit("1");
        reveal_strlit("2");
        reveal_strlit("3");
        reveal_strlit("4");
        reveal_strlit("5");
        reveal_strlit("6");
        reveal_strlit("7");
        reveal_strlit("8");
        reveal_strlit("9");
    }
    let s: &'static str = if d == 0 {
        "0"
    } else if d == 1 {
        "1"
    } else if d == 2 {
        "2"
    } else if d == 3 {
        "3"
    } else if d == 4 {
        "4"
    } else if d == 5 {
        "5"
    } else if d == 6 {
        "6"
    } else if d == 7 {
        "7"
    } else if d == 8 {
        "8"
    } else {
        "9"
    };
    assert(s@ =~= seq![digit_char(d as nat)]);
    s
}

/// Writes `n` in decimal digits.
pub fn decimal_text(n: u64) -> (s: String)
    ensures
        s@ == decimal(n as nat),
    decreases n,
{
    if n < 10 {
        String::from_str(digit_text(n))
    } else {
        let mut s = decimal_text(n / 10);
        s.append(digit_text(n % 10));
        s
    }
}

/// What the watchdog writes into the guest at the time `now`: the Unix time
/// in decimal digits.
pub fn current_time_text(now: u64) -> (s: String)
    ensures
        s@ == decimal(now as nat),
{
    decimal_text(now)
}

} // verus!
