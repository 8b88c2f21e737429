//! Small verified text helpers: string equality, decimal rendering.

use vstd::prelude::*;

verus! {

/// Character-for-character string equality.
pub fn str_eq(a: &str, b: &str) -> (r: bool)
    ensures
        r == (a@ == b@),
{
    let a_len = a.unicode_len();
    let b_len = b.unicode_len();
    if a_len != b_len {
        proof {
            assert(a@.len() != b@.len());
        }
        return false;
    }
    let mut i: usize = 0;
    while i < a_len
        invariant
            a_len == a@.len(),
            b_len == b@.len(),
            a_len == b_len,
            0 <= i <= a_len,
            forall|j: int| 0 <= j < i ==> a@[j] == b@[j],
        decreases a_len - i,
    {
        if a.get_char(i) != b.get_char(i) {
            return false;
        }
        i = i + 1;
    }
    proof {
        assert(a@ =~= b@);
    }
    true
}

/// The character for one decimal digit.
pub open spec fn spec_digit(d: int) -> char {
    if d == 0 {
        '0'
    } else if d == 1 {
        '1'
    } else if d == 2 {
        '2'
    } else if d == 3 {
        '3'
    } else if d == 4 {
        '4'
    } else if d == 5 {
        '5'
    } else if d == 6 {
        '6'
    } else if d == 7 {
        '7'
    } else if d == 8 {
        '8'
    } else {
        '9'
    }
}

/// The decimal digits of `n`.
pub open spec fn spec_decimal(n: int) -> Seq<char>
    decreases n,
{
    if n < 10 {
        seq![spec_digit(n)]
    } else {
        spec_decimal(n / 10).push(spec_digit(n % 10))
    }
}

/// One decimal digit as a string slice.
fn digit_str(d: u64) -> (r: &'static str)
    requires
        d < 10,
    ensures
        r@ == seq![spec_digit(d as int)],
{
    let r = match d {
        0 => "0",
        1 => "1",
        2 => "2",
        3 => "3",
        4 => "4",
        5 => "5",
        6 => "6",
        7 => "7",
        8 => "8",
        _ => "9",
    };
    proof {
        reveal_strlit("0");
        reveal_strlit("1");
        reveal_strlit("2");
        reveal_strlit("3");
        reveal_strlit("4");
        reveal_strlit("5");
        reveal_strlit("6");
        reveal_strlit("7");
        reveal_strlit("8");
        reveal_strlit("9");
        assert(r@ =~= seq![spec_digit(d as int)]);
    }
    r
}

/// Appends the decimal digits of `n` to `out`.
pub fn push_decimal(n: u64, out: &mut String)
    ensures
        final(out)@ == old(out)@ + spec_decimal(n as int),
    decreases n,
{
    if n < 10 {
        out.append(digit_str(n));
        assert(final(out)@ =~= old(out)@ + spec_decimal(n as int));
    } else {
        push_decimal(n / 10, out);
        out.append(digit_str(n % 10));
        assert(final(out)@ =~= old(out)@ + spec_decimal(n as int));
    }
}

/// Renders `n` in decimal.
pub fn decimal_string(n: u64) -> (r: String)
    ensures
        r@ == spec_decimal(n as int),
{
    let mut r = String::new();
    push_decimal(n, &mut r);
    assert(r@ =~= spec_decimal(n as int));
    r
}

/// The numeric value of one decimal digit character, or -1 for any other
/// character.
pub open spec fn spec_digit_val(c: char) -> int {
    if c == '0' {
        0
    } else if c == '1' {
        1
    } else if c == '2' {
        2
    } else if c == '3' {
        3
    } else if c == '4' {
        4
    } else if c == '5' {
        5
    } else if c == '6' {
        6
    } else if c == '7' {
        7
    } else if c == '8' {
        8
    } else if c == '9' {
        9
    } else {
        -1
    }
}

/// Whether every character of `s` is a decimal digit.
pub open spec fn spec_all_digits(s: Seq<char>) -> bool {
    forall|i: int| 0 <= i < s.len() ==> spec_digit_val(#[trigger] s[i]) >= 0
}

/// The number a digit string denotes.
pub open spec fn spec_digits_val(s: Seq<char>) -> int
    decreases s.len(),
{
    if s.len() == 0 {
        0
    } else {
        10 * spec_digits_val(s.drop_last()) + spec_digit_val(s.last())
    }
}

/// Ten to the `n`.
pub open spec fn spec_pow10(n: nat) -> int
    decreases n,
{
    if n == 0 {
        1
    } else {
        10 * spec_pow10((n - 1) as nat)
    }
}

/// A digit string of length `n` denotes less than ten to the `n`, and one
/// that does not start with zero denotes at least ten to the `n - 1`.
pub proof fn lemma_digits_val_bounds(s: Seq<char>)
    requires
        spec_all_digits(s),
    ensures
        0 <= spec_digits_val(s) < spec_pow10(s.len()),
        s.len() >= 1 && s[0] != '0' ==> spec_digits_val(s) >= spec_pow10((s.len() - 1) as nat),
    decreases s.len(),
{
    if s.len() > 0 {
        let head = s.drop_last();
        assert forall|i: int| 0 <= i < head.len() implies spec_digit_val(#[trigger] head[i]) >= 0 by {
            assert(head[i] == s[i]);
        }
        lemma_digits_val_bounds(head);
        assert(spec_digit_val(s.last()) >= 0);
        if s.len() >= 2 && s[0] != '0' {
            assert(head[0] == s[0]);
        }
        if s.len() == 1 && s[0] != '0' {
            assert(spec_digit_val(s[0]) >= 1);
        }
    }
}

/// The decimal rendering of `n` consists of digits, does not start with a
/// zero unless it is exactly zero, and denotes `n` itself.
pub proof fn lemma_decimal_digits(n: int)
    requires
        n >= 0,
    ensures
        spec_all_digits(spec_decimal(n)),
        spec_decimal(n).len() >= 1,
        spec_digits_val(spec_decimal(n)) == n,
        n > 0 ==> spec_decimal(n)[0] != '0',
        n == 0 ==> spec_decimal(n) == seq!['0'],
    decreases n,
{
    if n < 10 {
        assert(spec_decimal(n) =~= seq![spec_digit(n)]);
        assert(spec_decimal(n).drop_last() =~= Seq::<char>::empty());
        assert(spec_digits_val(Seq::<char>::empty()) == 0);
        assert(spec_decimal(n).last() == spec_digit(n));
        assert(spec_digit_val(spec_digit(n)) == n);
    } else {
        lemma_decimal_digits(n / 10);
        let s = spec_decimal(n);
        assert(s == spec_decimal(n / 10).push(spec_digit(n % 10)));
        assert(s.drop_last() =~= spec_decimal(n / 10));
        assert(s.last() == spec_digit(n % 10));
        assert(spec_digit_val(spec_digit(n % 10)) == n % 10);
        assert forall|i: int| 0 <= i < s.len() implies spec_digit_val(#[trigger] s[i]) >= 0 by {
            if i < s.len() - 1 {
                assert(s[i] == spec_decimal(n / 10)[i]);
            }
        }
        assert(s[0] == spec_decimal(n / 10)[0]);
    }
}

/// Parses a digit string left to right.  Returns the denoted value exactly
/// when the string is a well-formed number that fits: nonempty, all digits,
/// no leading zero (except the single digit zero itself), and value below
/// two to the sixty-fourth.
pub fn parse_decimal(s: &str) -> (r: Option<u64>)
    ensures
        match r {
            Some(v) => {
                &&& spec_all_digits(s@)
                &&& s@.len() >= 1
                &&& (s@[0] != '0' || s@.len() == 1)
                &&& spec_digits_val(s@) == v
            },
            None => !(spec_all_digits(s@) && s@.len() >= 1 && (s@[0] != '0' || s@.len() == 1)
                && spec_digits_val(s@) <= u64::MAX),
        },
{
    let len = s.unicode_len();
    if len == 0 || len > 20 {
        proof {
            if len > 20 && spec_all_digits(s@) && s@[0] != '0' {
                lemma_digits_val_bounds(s@);
                lemma_pow10_increases(20, (s@.len() - 1) as nat);
                reveal_with_fuel(spec_pow10, 21);
                assert(spec_pow10(20) == 100000000000000000000);
            }
        }
        return None;
    }
    if s.get_char(0) == '0' && len != 1 {
        return None;
    }
    let mut acc: u128 = 0;
    let mut i: usize = 0;
    proof {
        assert(s@.take(0) =~= Seq::<char>::empty());
    }
    while i < len
        invariant
            len == s@.len(),
            1 <= len <= 20,
            0 <= i <= len,
            spec_all_digits(s@.take(i as int)),
            acc == spec_digits_val(s@.take(i as int)),
            acc < 100000000000000000000,
        decreases len - i,
    {
        let c = s.get_char(i);
        let d: u128 = if c == '0' {
            0
        } else if c == '1' {
            1
        } else if c == '2' {
            2
        } else if c == '3' {
            3
        } else if c == '4' {
            4
        } else if c == '5' {
            5
        } else if c == '6' {
            6
        } else if c == '7' {
            7
        } else if c == '8' {
            8
        } else if c == '9' {
            9
        } else {
            return None;
        };
        proof {
            assert(spec_digit_val(s@[i as int]) == d);
            assert(s@.take(i + 1).drop_last() =~= s@.take(i as int));
            assert(s@.take(i + 1).last() == s@[i as int]);
            let t = s@.take(i + 1);
            assert(spec_all_digits(t)) by {
                assert forall|j: int| 0 <= j < t.len() implies spec_digit_val(
                    #[trigger] t[j],
                ) >= 0 by {
                    assert(t[j] == s@[j]);
                    if j < i {
                        assert(s@.take(i as int)[j] == s@[j]);
                    }
                }
            }
            lemma_digits_val_bounds(t);
            lemma_pow10_increases(t.len() as nat, 20);
            reveal_with_fuel(spec_pow10, 21);
            assert(spec_pow10(20) == 100000000000000000000);
        }
        acc = 10 * acc + d;
        i = i + 1;
    }
    proof {
        assert(s@.take(len as int) =~= s@);
    }
    if acc > 0xffff_ffff_ffff_ffff {
        return None;
    }
    Some(acc as u64)
}

/// Ten to the power is monotonic in the exponent.
pub proof fn lemma_pow10_increases(a: nat, b: nat)
    requires
        a <= b,
    ensures
        spec_pow10(a) <= spec_pow10(b),
    decreases b,
{
    if a < b {
        lemma_pow10_increases(a, (b - 1) as nat);
        assert(spec_pow10(b) == 10 * spec_pow10((b - 1) as nat));
        assert(spec_pow10((b - 1) as nat) >= 1) by {
            lemma_pow10_positive((b - 1) as nat);
        }
    }
}

/// Ten to any power is positive.
pub proof fn lemma_pow10_positive(n: nat)
    ensures
        spec_pow10(n) >= 1,
    decreases n,
{
    if n > 0 {
        lemma_pow10_positive((n - 1) as nat);
    }
}

/// The index of the last occurrence of `c` in `s`, or -1 when absent.
pub open spec fn spec_last_index(s: Seq<char>, c: char) -> int
    decreases s.len(),
{
    if s.len() == 0 {
        -1
    } else if s[s.len() - 1] == c {
        s.len() - 1
    } else {
        spec_last_index(s.drop_last(), c)
    }
}

/// The last occurrence of `c` stands where the spec says, and nothing after
/// it is another occurrence.
pub proof fn lemma_last_index_facts(s: Seq<char>, c: char)
    ensures
        -1 <= spec_last_index(s, c) < s.len(),
        spec_last_index(s, c) >= 0 ==> s[spec_last_index(s, c)] == c,
        forall|j: int| spec_last_index(s, c) < j < s.len() ==> s[j] != c,
    decreases s.len(),
{
    if s.len() > 0 && s[s.len() - 1] != c {
        lemma_last_index_facts(s.drop_last(), c);
        let k = spec_last_index(s, c);
        if k >= 0 {
            assert(s[k] == s.drop_last()[k]);
        }
        assert forall|j: int| k < j < s.len() implies s[j] != c by {
            if j < s.len() - 1 {
                assert(s.drop_last()[j] == s[j]);
            }
        }
    }
}

/// Finds the last occurrence of `c` in `s`.
pub fn last_index(s: &str, c: char) -> (r: Option<usize>)
    ensures
        match r {
            Some(i) => i == spec_last_index(s@, c),
            None => spec_last_index(s@, c) == -1,
        },
{
    let len = s.unicode_len();
    proof {
        assert(s@.take(len as int) =~= s@);
    }
    let mut i: usize = len;
    while i > 0
        invariant
            len == s@.len(),
            0 <= i <= len,
            spec_last_index(s@, c) == spec_last_index(s@.take(i as int), c),
        decreases i,
    {
        let ch = s.get_char(i - 1);
        proof {
            assert(s@.take(i as int).drop_last() =~= s@.take(i - 1));
            assert(s@.take(i as int).len() == i);
            assert(s@.take(i as int)[i - 1] == s@[i - 1]);
        }
        if ch == c {
            proof {
                assert(spec_last_index(s@.take(i as int), c) == i - 1);
            }
            return Some(i - 1);
        }
        i = i - 1;
    }
    proof {
        assert(s@.take(0) =~= Seq::<char>::empty());
    }
    None
}

/// The final path component: everything after the last separator.
pub open spec fn spec_file_name(path: Seq<char>) -> Seq<char> {
    path.subrange(spec_last_index(path, '/') + 1, path.len() as int)
}

/// The extension of the final component: everything after its last dot,
/// provided that dot is not its leading character.
pub open spec fn spec_extension(path: Seq<char>) -> Option<Seq<char>> {
    let name = spec_file_name(path);
    let d = spec_last_index(name, '.');
    if d <= 0 {
        None
    } else {
        Some(name.subrange(d + 1, name.len() as int))
    }
}

/// The stem of the final component: everything before its last dot, or the
/// whole component when it has no usable extension.
pub open spec fn spec_file_stem(path: Seq<char>) -> Seq<char> {
    let name = spec_file_name(path);
    let d = spec_last_index(name, '.');
    if d <= 0 {
        name
    } else {
        name.subrange(0, d)
    }
}

/// Extracts the final path component.
pub fn file_name(path: &str) -> (r: String)
    ensures
        r@ == spec_file_name(path@),
{
    let len = path.unicode_len();
    proof {
        lemma_last_index_facts(path@, '/');
    }
    let start: usize = match last_index(path, '/') {
        Some(i) => i + 1,
        None => 0,
    };
    let piece = path.substring_char(start, len);
    String::from_str(piece)
}

/// Extracts the extension of the final component, if it has one.
pub fn extension(path: &str) -> (r: Option<String>)
    ensures
        match (r, spec_extension(path@)) {
            (Some(e), Some(se)) => e@ == se,
            (None, None) => true,
            _ => false,
        },
{
    let name = file_name(path);
    let name_len = name.as_str().unicode_len();
    proof {
        lemma_last_index_facts(name@, '.');
    }
    match last_index(name.as_str(), '.') {
        Some(d) if d > 0 => {
            let e = name.as_str().substring_char(d + 1, name_len);
            Some(String::from_str(e))
        },
        _ => None,
    }
}

/// Extracts the stem of the final component.
pub fn file_stem(path: &str) -> (r: String)
    ensures
        r@ == spec_file_stem(path@),
{
    let name = file_name(path);
    let name_len = name.as_str().unicode_len();
    proof {
        lemma_last_index_facts(name@, '.');
    }
    match last_index(name.as_str(), '.') {
        Some(d) if d > 0 => {
            let s = name.as_str().substring_char(0, d);
            String::from_str(s)
        },
        _ => name,
    }
}

/// Whether `s` starts with the two-character prefix `a` then `b`.
pub fn starts_with2(s: &str, a: char, b: char) -> (r: bool)
    ensures
        r == (s@.len() >= 2 && s@[0] == a && s@[1] == b),
{
    let len = s.unicode_len();
    if len < 2 {
        return false;
    }
    s.get_char(0) == a && s.get_char(1) == b
}

/// Whether `s` ends with `suffix`.
pub fn ends_with(s: &str, suffix: &str) -> (r: bool)
    ensures
        r == (s@.len() >= suffix@.len() && s@.subrange(
            s@.len() - suffix@.len(),
            s@.len() as int,
        ) == suffix@),
{
    let s_len = s.unicode_len();
    let suf_len = suffix.unicode_len();
    if s_len < suf_len {
        return false;
    }
    let tail = s.substring_char(s_len - suf_len, s_len);
    str_eq(tail, suffix)
}

/// `s` with every copy of `suffix` trimmed off its end, one after another.
pub open spec fn spec_trim_end_matches(s: Seq<char>, suffix: Seq<char>) -> Seq<char>
    decreases s.len(),
{
    if suffix.len() == 0 || s.len() < suffix.len() || s.subrange(
        s.len() - suffix.len(),
        s.len() as int,
    ) != suffix {
        s
    } else {
        spec_trim_end_matches(s.subrange(0, s.len() - suffix.len()), suffix)
    }
}

/// Trims every trailing copy of `suffix` off `s`.
pub fn trim_end_matches(s: &str, suffix: &str) -> (r: String)
    ensures
        r@ == spec_trim_end_matches(s@, suffix@),
    decreases s@.len(),
{
    let suf_len = suffix.unicode_len();
    let s_len = s.unicode_len();
    if suf_len == 0 || !ends_with(s, suffix) {
        return String::from_str(s);
    }
    let head = s.substring_char(0, s_len - suf_len);
    trim_end_matches(head, suffix)
}

} // verus!
