use vstd::prelude::*;

verus! {

/// Whether `c` carries the Unicode `White_Space` property.
pub open spec fn is_space(c: char) -> bool {
    let n = c as u32;
    ||| 0x09 <= n <= 0x0D
    ||| n == 0x20
    ||| n == 0x85
    ||| n == 0xA0
    ||| n == 0x1680
    ||| 0x2000 <= n <= 0x200A
    ||| n == 0x2028
    ||| n == 0x2029
    ||| n == 0x202F
    ||| n == 0x205F
    ||| n == 0x3000
}

/// The first index at or after `i` whose character is not white space, or
/// the length of `s` when only white space follows.
pub open spec fn skip_spaces(s: Seq<char>, i: int) -> int
    decreases s.len() - i,
{
    if 0 <= i < s.len() && is_space(s[i]) {
        skip_spaces(s, i + 1)
    } else {
        i
    }
}

/// The first index at or after `i` whose character is white space, or the
/// length of `s` when none follows.
pub open spec fn skip_word(s: Seq<char>, i: int) -> int
    decreases s.len() - i,
{
    if 0 <= i < s.len() && !is_space(s[i]) {
        skip_word(s, i + 1)
    } else {
        i
    }
}

/// The bounds of the first word of `s` that starts at or after `i`: a word
/// is a maximal run of characters that are not white space.
pub open spec fn word_at(s: Seq<char>, i: int) -> Option<(int, int)> {
    let start = skip_spaces(s, i);
    if start < s.len() {
        Some((start, skip_word(s, start)))
    } else {
        None
    }
}

/// The first word of `s`, if it has one.
pub open spec fn first_word(s: Seq<char>) -> Option<Seq<char>> {
    match word_at(s, 0) {
        Some((start, end)) => Some(s.subrange(start, end)),
        None => None,
    }
}

/// The second word of `s`, if it has one.
pub open spec fn second_word(s: Seq<char>) -> Option<Seq<char>> {
    match word_at(s, 0) {
        Some((_, end)) => match word_at(s, end) {
            Some((start, stop)) => Some(s.subrange(start, stop)),
            None => None,
        },
        None => None,
    }
}

/// The character that writes the decimal digit `d`.
pub open spec fn digit_char(d: int) -> char {
    if d == 0 {
        '0'
    } else if d == 1 {
        '1'
    } else if d == 2 {
        '2'
    } else if d == 3 {
        '3'
    } else if d == 4 {
        '4'
    } else if d == 5 {
        '5'
    } else if d == 6 {
        '6'
    } else if d == 7 {
        '7'
    } else if d == 8 {
        '8'
    } else {
        '9'
    }
}

/// The decimal numeral of `n`, without leading zeros.
pub open spec fn decimal(n: nat) -> Seq<char>
    decreases n,
{
    if n < 10 {
        seq![digit_char(n as int)]
    } else {
        decimal(n / 10).push(digit_char((n % 10) as int))
    }
}

/// The decimal numeral of `i`, with a minus sign when it is negative.
pub open spec fn signed_decimal(i: int) -> Seq<char> {
    if i < 0 {
        seq!['-'] + decimal((-i) as nat)
    } else {
        decimal(i as nat)
    }
}

/// Words end where they must: the bounds that `word_at` gives enclose a
/// non-empty run without white space, preceded by white space only and
/// followed by white space or the end of the text.
pub proof fn lemma_word_bounds(s: Seq<char>, i: int)
    requires
        0 <= i <= s.len(),
    ensures
        i <= skip_spaces(s, i) <= s.len(),
        forall|k: int| i <= k < skip_spaces(s, i) ==> is_space(#[trigger] s[k]),
        skip_spaces(s, i) < s.len() ==> !is_space(s[skip_spaces(s, i)]),
        i <= skip_word(s, i) <= s.len(),
        forall|k: int| i <= k < skip_word(s, i) ==> !is_space(#[trigger] s[k]),
        skip_word(s, i) < s.len() ==> is_space(s[skip_word(s, i)]),
        word_at(s, i) matches Some((start, end)) ==> i <= start < end <= s.len(),
    decreases s.len() - i,
{
    if i < s.len() {
        lemma_word_bounds(s, i + 1);
    }
    let start = skip_spaces(s, i);
    if start < s.len() {
        lemma_skip_word_range(s, start);
    }
}

proof fn lemma_skip_word_range(s: Seq<char>, i: int)
    requires
        0 <= i <= s.len(),
    ensures
        i <= skip_word(s, i) <= s.len(),
        i < s.len() && !is_space(s[i]) ==> i < skip_word(s, i),
    decreases s.len() - i,
{
    if i < s.len() && !is_space(s[i]) {
        lemma_skip_word_range(s, i + 1);
    }
}

/// Decides `is_space` for one character.
pub fn char_is_space(c: char) -> (b: bool)
    ensures
        b == is_space(c),
{
    let n: u32 = c as u32;
    (0x09 <= n && n <= 0x0D) || n == 0x20 || n == 0x85 || n == 0xA0 || n == 0x1680 || (0x2000 <= n
        && n <= 0x200A) || n == 0x2028 || n == 0x2029 || n == 0x202F || n == 0x205F || n == 0x3000
}

/// The characters of `s`, in order.
pub fn chars_of(s: &str) -> (v: Vec<char>)
    ensures
        v@ == s@,
{
    let mut v: Vec<char> = Vec::new();
    for c in it: s.chars()
        invariant
            it.seq() == s@,
            v@ == it.seq().take(it.index()),
    {
        v.push(c);
    }
    v
}

/// Finds the first word of `chars` that starts at or after `from`.
pub fn find_word(chars: &Vec<char>, from: usize) -> (found: Option<(usize, usize)>)
    ensures
        match found {
            Some((start, end)) => word_at(chars@, from as int) == Some((start as int, end as int))
                && from <= start < end <= chars.len(),
            None => word_at(chars@, from as int) is None,
        },
{
    let n: usize = chars.len();
    if from >= n {
        return None;
    }
    let mut start: usize = from;
    while start < n && char_is_space(chars[start])
        invariant
            n == chars.len(),
            from <= start <= n,
            skip_spaces(chars@, start as int) == skip_spaces(chars@, from as int),
        decreases n - start,
    {
        start += 1;
    }
    if start == n {
        return None;
    }
    let mut end: usize = start + 1;
    while end < n && !char_is_space(chars[end])
        invariant
            n == chars.len(),
            start < end <= n,
            skip_word(chars@, end as int) == skip_word(chars@, start as int),
        decreases n - end,
    {
        end += 1;
    }
    Some((start, end))
}

/// The text that writes the decimal digit `d`.
fn digit_text(d: u8) -> (t: &'static str)
    requires
        d < 10,
    ensures
        t@ == seq![digit_char(d as int)],
{
    proof {
        reveal_strlit("0");
        reveal_strlit("1");
        reveal_strlit("2");
        reveal_strlit("3");
        reveal_strlit("4");
        reveal_strlit("5");
        reveal_strlit("6");
        reveal_strlit("7");
        reveal_strlit("8");
        reveal_strlit("9");
    }
    let t = if d == 0 {
        "0"
    } else if d == 1 {
        "1"
    } else if d == 2 {
        "2"
    } else if d == 3 {
        "3"
    } else if d == 4 {
        "4"
    } else if d == 5 {
        "5"
    } else if d == 6 {
        "6"
    } else if d == 7 {
        "7"
    } else if d == 8 {
        "8"
    } else {
        "9"
    };
    assert(t@ =~= seq![digit_char(d as int)]);
    t
}

/// Writes `n` as a decimal numeral.
pub fn decimal_text(n: u64) -> (t: String)
    ensures
        t@ == decimal(n as nat),
    decreases n,
{
    if n < 10 {
        String::from_str(digit_text(n as u8))
    } else {
        let mut t = decimal_text(n / 10);
        t.append(digit_text((n % 10) as u8));
        assert(t@ =~= decimal(n as nat));
        t
    }
}

/// Writes `i` as a decimal numeral, with a minus sign when it is negative.
pub fn signed_decimal_text(i: i64) -> (t: String)
    ensures
        t@ == signed_decimal(i as int),
{
    if i < 0 {
        proof {
            reveal_strlit("-");
        }
        let magnitude: u64 = if i == i64::MIN {
            9223372036854775808u64
        } else {
            (-i) as u64
        };
        let mut t = String::from_str("-");
        let digits = decimal_text(magnitude);
        t.append(digits.as_str());
        assert(t@ =~= signed_decimal(i as int));
        t
    } else {
        decimal_text(i as u64)
    }
}

/// Joins `a` and `b`.
pub fn joined(a: &str, b: &str) -> (t: String)
    ensures
        t@ == a@ + b@,
{
    let mut t = String::from_str(a);
    t.append(b);
    t
}

/// Whether `a` and `b` hold the same characters.
pub fn same_text(a: &str, b: &str) -> (same: bool)
    ensures
        same == (a@ == b@),
{
    String::from_str(a) == String::from_str(b)
}

} // verus!
