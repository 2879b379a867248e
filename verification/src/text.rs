//! Text as a sequence of characters: comparison, white space, trimming and
//! decimal numbers.

use vstd::prelude::*;

verus! {

/// Whether two texts hold the same characters.
///
/// Trusted: this is `==` of `str`, which compares the two texts byte by
/// byte; two texts have the same bytes exactly when they have the same
/// characters.
#[verifier::external_body]
pub(crate) fn same_text(a: &str, b: &str) -> (r: bool)
    ensures
        r == (a@ == b@),
{
    a == b
}

/// The characters of a text, in order.
pub fn chars_of(s: &str) -> (v: Vec<char>)
    ensures
        v@ == s@,
{
    let mut v: Vec<char> = Vec::new();
    for c in it: s.chars()
        invariant
            it.seq() == s@,
            v@ == s@.take(it.index() as int),
    {
        v.push(c);
    }
    v
}

/// Whether a character is white space in Unicode's sense (the derived core
/// property `White_Space`): the ASCII controls U+0009 to U+000D, the space,
/// and the nineteen separators beyond ASCII.
pub open spec fn is_white_space(c: char) -> bool {
    let n = c as u32;
    ||| 0x09 <= n <= 0x0D
    ||| n == 0x20
    ||| n == 0x85
    ||| n == 0xA0
    ||| n == 0x1680
    ||| 0x2000 <= n <= 0x200A
    ||| n == 0x2028
    ||| n == 0x2029
    ||| n == 0x202F
    ||| n == 0x205F
    ||| n == 0x3000
}

/// Tests a character for white space.
pub fn white_space(c: char) -> (b: bool)
    ensures
        b == is_white_space(c),
{
    let n: u32 = c as u32;
    (0x09 <= n && n <= 0x0D) || n == 0x20 || n == 0x85 || n == 0xA0 || n == 0x1680 || (0x2000 <= n
        && n <= 0x200A) || n == 0x2028 || n == 0x2029 || n == 0x202F || n == 0x205F || n == 0x3000
}

/// A text without the white space it starts with.
pub open spec fn skip_leading(s: Seq<char>) -> Seq<char>
    decreases s.len(),
{
    if s.len() > 0 && is_white_space(s[0]) {
        skip_leading(s.drop_first())
    } else {
        s
    }
}

/// A text without the white space it ends with.
pub open spec fn skip_trailing(s: Seq<char>) -> Seq<char>
    decreases s.len(),
{
    if s.len() > 0 && is_white_space(s.last()) {
        skip_trailing(s.drop_last())
    } else {
        s
    }
}

/// A text without the white space at either end.
pub open spec fn trimmed(s: Seq<char>) -> Seq<char> {
    skip_trailing(skip_leading(s))
}

/// A text without the white space it starts with is its own end, begun
/// at the first character that is no white space.
pub proof fn lemma_skip_leading(s: Seq<char>) -> (a: int)
    ensures
        0 <= a <= s.len(),
        skip_leading(s) == s.subrange(a, s.len() as int),
        a < s.len() ==> !is_white_space(s[a]),
    decreases s.len(),
{
    if s.len() > 0 && is_white_space(s[0]) {
        let rest = s.drop_first();
        let b = lemma_skip_leading(rest);
        assert(rest.subrange(b, rest.len() as int) =~= s.subrange(b + 1, s.len() as int));
        b + 1
    } else {
        assert(s.subrange(0, s.len() as int) =~= s);
        0
    }
}

/// A text without the white space it ends with is its own start, ended
/// after the last character that is no white space.
pub proof fn lemma_skip_trailing(s: Seq<char>) -> (b: int)
    ensures
        0 <= b <= s.len(),
        skip_trailing(s) == s.subrange(0, b),
        b > 0 ==> !is_white_space(s[b - 1]),
    decreases s.len(),
{
    if s.len() > 0 && is_white_space(s.last()) {
        let rest = s.drop_last();
        let b = lemma_skip_trailing(rest);
        assert(rest.subrange(0, b) =~= s.subrange(0, b));
        b
    } else {
        assert(s.subrange(0, s.len() as int) =~= s);
        s.len() as int
    }
}

/// What trimming leaves of a text is a stretch of it, which is empty or
/// has no white space at either end.
pub proof fn lemma_trimmed_is_stretch(s: Seq<char>) -> (r: (int, int))
    ensures
        0 <= r.0 <= r.1 <= s.len(),
        trimmed(s) == s.subrange(r.0, r.1),
        r.0 < r.1 ==> !is_white_space(s[r.0]) && !is_white_space(s[r.1 - 1]),
{
    let a = lemma_skip_leading(s);
    let tail = s.subrange(a, s.len() as int);
    let b = lemma_skip_trailing(tail);
    assert(tail.subrange(0, b) =~= s.subrange(a, a + b));
    if b > 0 {
        assert(tail[b - 1] == s[a + b - 1]);
    }
    (a, a + b)
}

/// Finds where the trimmed form of `v[from..to]` lies in `v`: from the
/// first character of the range that is no white space to the last one.
/// Where the range holds white space only, this is the empty stretch at
/// its end.
pub fn trim_bounds(v: &Vec<char>, from: usize, to: usize) -> (r: (usize, usize))
    requires
        from <= to <= v.len(),
    ensures
        from <= r.0 <= r.1 <= to,
        v@.subrange(r.0 as int, r.1 as int) == trimmed(v@.subrange(from as int, to as int)),
        forall|i: int| from <= i < r.0 ==> is_white_space(v@[i]),
        forall|i: int| r.1 <= i < to ==> is_white_space(v@[i]),
        r.0 < r.1 ==> !is_white_space(v@[r.0 as int]) && !is_white_space(v@[r.1 - 1]),
        r.0 == r.1 ==> r.0 == to,
{
    let mut start: usize = from;
    while start < to && white_space(v[start])
        invariant
            from <= start <= to <= v.len(),
            skip_leading(v@.subrange(from as int, to as int)) == skip_leading(
                v@.subrange(start as int, to as int),
            ),
            forall|i: int| from <= i < start ==> is_white_space(v@[i]),
        decreases to - start,
    {
        assert(v@.subrange(start as int, to as int).drop_first() =~= v@.subrange(
            start + 1,
            to as int,
        ));
        start = start + 1;
    }
    let mut end: usize = to;
    while start < end && white_space(v[end - 1])
        invariant
            from <= start <= end <= to <= v.len(),
            skip_trailing(v@.subrange(start as int, to as int)) == skip_trailing(
                v@.subrange(start as int, end as int),
            ),
            forall|i: int| end <= i < to ==> is_white_space(v@[i]),
            start < to ==> !is_white_space(v@[start as int]),
            forall|i: int| from <= i < start ==> is_white_space(v@[i]),
        decreases end - start,
    {
        assert(v@.subrange(start as int, end as int).drop_last() =~= v@.subrange(
            start as int,
            end - 1,
        ));
        end = end - 1;
    }
    (start, end)
}

/// Whether a character is one of the ten ASCII digits.
pub open spec fn is_digit(c: char) -> bool {
    0x30 <= c as u32 <= 0x39
}

/// The number that a digit stands for; 0 for any other character.
pub open spec fn digit_value(c: char) -> nat {
    if is_digit(c) {
        (c as u32 - 0x30) as nat
    } else {
        0
    }
}

/// The number that a run of digits writes in base ten.
pub open spec fn digits_value(s: Seq<char>) -> nat
    decreases s.len(),
{
    if s.len() == 0 {
        0
    } else {
        10 * digits_value(s.drop_last()) + digit_value(s.last())
    }
}

/// Whether every character of a text is a digit.
pub open spec fn all_digits(s: Seq<char>) -> bool {
    forall|i: int| 0 <= i < s.len() ==> is_digit(#[trigger] s[i])
}

/// A decimal number without its sign: what follows one leading `+`, or
/// the whole text where there is none.
pub open spec fn unsigned_part(s: Seq<char>) -> Seq<char> {
    if s.len() > 0 && s[0] == '+' {
        s.drop_first()
    } else {
        s
    }
}

/// The number that a text writes: an optional `+`, then one digit or more
/// and nothing else. No white space, no `-`, no separators.
pub open spec fn decimal(s: Seq<char>) -> Option<nat> {
    let body = unsigned_part(s);
    if body.len() > 0 && all_digits(body) {
        Some(digits_value(body))
    } else {
        None
    }
}

/// A text's number is no smaller than the number of any of its prefixes.
pub proof fn lemma_digits_value_grows(s: Seq<char>, k: int)
    requires
        0 <= k <= s.len(),
    ensures
        digits_value(s.take(k)) <= digits_value(s),
    decreases s.len() - k,
{
    if k == s.len() {
        assert(s.take(k) =~= s);
    } else {
        lemma_digits_value_grows(s.drop_last(), k);
        assert(s.drop_last().take(k) =~= s.take(k));
    }
}

/// Reads a decimal number, if the text writes one that a `usize` holds.
pub fn parse_decimal(s: &str) -> (r: Option<usize>)
    ensures
        r == match decimal(s@) {
            Some(n) => if n <= usize::MAX {
                Some(n as usize)
            } else {
                None
            },
            None => None,
        },
{
    let v = chars_of(s);
    let n: usize = v.len();
    let start: usize = if n > 0 && v[0] == '+' {
        1
    } else {
        0
    };
    if start == n {
        return None;
    }
    let ghost body = unsigned_part(s@);
    assert(body =~= v@.subrange(start as int, n as int));
    let mut acc: usize = 0;
    let mut i: usize = start;
    while i < n
        invariant
            start <= i <= n,
            n == v.len(),
            v@ == s@,
            body == v@.subrange(start as int, n as int),
            body == unsigned_part(s@),
            all_digits(body.take(i - start)),
            acc == digits_value(body.take(i - start)),
        decreases n - i,
    {
        let c: char = v[i];
        let code: u32 = c as u32;
        if code < 0x30 || code > 0x39 {
            assert(!is_digit(body[i - start]));
            return None;
        }
        let d: usize = (code - 0x30) as usize;
        proof {
            assert(body.take(i - start + 1).drop_last() =~= body.take(i - start));
            assert(body.take(i - start + 1).last() == c);
            lemma_digits_value_grows(body, i - start + 1);
        }
        let next: Option<usize> = match acc.checked_mul(10) {
            Some(m) => m.checked_add(d),
            None => None,
        };
        match next {
            Some(m) => {
                acc = m;
            },
            None => {
                return None;
            },
        }
        i = i + 1;
    }
    assert(body.take(n - start) =~= body);
    Some(acc)
}

} // verus!
