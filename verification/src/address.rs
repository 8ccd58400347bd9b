use crate::text::{chars_of, first_word, second_word, find_word};
use vstd::prelude::*;

verus! {

/// Whether `c` is a decimal digit.
pub open spec fn is_digit(c: char) -> bool {
    0x30 <= c as u32 <= 0x39
}

/// Whether `c` is a hexadecimal digit, in either case.
pub open spec fn is_hex_digit(c: char) -> bool {
    is_digit(c) || 0x41 <= c as u32 <= 0x46 || 0x61 <= c as u32 <= 0x66
}

/// The number that the decimal digits `s` write.
pub open spec fn number(s: Seq<char>) -> int
    decreases s.len(),
{
    if s.len() == 0 {
        0
    } else {
        number(s.drop_last()) * 10 + (s.last() as u32 - 0x30)
    }
}

/// Whether every character of `s` meets `wanted`.
pub open spec fn all_are(s: Seq<char>, wanted: spec_fn(char) -> bool) -> bool {
    forall|i: int| 0 <= i < s.len() ==> wanted(#[trigger] s[i])
}

/// Whether `s` writes one part of a dotted quad: a number up to 255 in
/// decimal digits, without leading zeros.
pub open spec fn is_octet(s: Seq<char>) -> bool {
    &&& 1 <= s.len() <= 3
    &&& all_are(s, |c: char| is_digit(c))
    &&& s.len() > 1 ==> s[0] != '0'
    &&& number(s) <= 255
}

/// Whether `s` writes one group of an IPv6 address: one to four
/// hexadecimal digits.
pub open spec fn is_group(s: Seq<char>) -> bool {
    &&& 1 <= s.len() <= 4
    &&& all_are(s, |c: char| is_hex_digit(c))
}

/// The first place at or after `from` where `s` holds `c`, or the length of
/// `s` where it holds none.
pub open spec fn find(s: Seq<char>, c: char, from: int) -> int
    decreases s.len() - from,
{
    if 0 <= from < s.len() && s[from] != c {
        find(s, c, from + 1)
    } else if 0 <= from < s.len() {
        from
    } else {
        s.len() as int
    }
}

/// The pieces of `s` from `from` on that `c` separates. Two separators in a
/// row, and one at the end, enclose an empty piece.
pub open spec fn split_from(s: Seq<char>, c: char, from: int) -> Seq<Seq<char>>
    decreases s.len() - from,
{
    let end = find(s, c, from);
    if 0 <= from <= end < s.len() {
        seq![s.subrange(from, end)] + split_from(s, c, end + 1)
    } else if 0 <= from <= s.len() {
        seq![s.subrange(from, s.len() as int)]
    } else {
        Seq::empty()
    }
}

/// The pieces of `s` that `c` separates.
pub open spec fn split(s: Seq<char>, c: char) -> Seq<Seq<char>> {
    split_from(s, c, 0)
}

/// Whether `s` is an IPv4 address in dotted-quad form.
pub open spec fn is_ipv4(s: Seq<char>) -> bool {
    let parts = split(s, '.');
    parts.len() == 4 && forall|i: int| 0 <= i < 4 ==> is_octet(#[trigger] parts[i])
}

/// The number of 16-bit groups that `s` writes, where it is empty or a run
/// of groups with colons between them. With `quad` the last piece may be a
/// dotted quad, which stands for two groups.
pub open spec fn groups(s: Seq<char>, quad: bool) -> Option<nat> {
    let parts = split(s, ':');
    if s.len() == 0 {
        Some(0)
    } else if !(forall|i: int| 0 <= i < parts.len() - 1 ==> is_group(#[trigger] parts[i])) {
        None
    } else if is_group(parts.last()) {
        Some(parts.len())
    } else if quad && is_ipv4(parts.last()) {
        Some(parts.len() + 1)
    } else {
        None
    }
}

/// The first place at or after `from` where `s` holds two colons in a row,
/// or the length of `s` where it holds none.
pub open spec fn gap(s: Seq<char>, from: int) -> int
    decreases s.len() - from,
{
    if 0 <= from && from + 1 < s.len() {
        if s[from] == ':' && s[from + 1] == ':' {
            from
        } else {
            gap(s, from + 1)
        }
    } else {
        s.len() as int
    }
}

/// Whether `s` is an IPv6 address: eight groups, or fewer with one double
/// colon in the place of those that are left out, the last two of them
/// written as a dotted quad if so wished.
pub open spec fn is_ipv6(s: Seq<char>) -> bool {
    let at = gap(s, 0);
    if at < s.len() {
        match (groups(s.take(at), false), groups(s.skip(at + 2), true)) {
            (Some(before), Some(after)) => before + after <= 7,
            _ => false,
        }
    } else {
        groups(s, true) == Some(8nat)
    }
}

/// Whether `s` is the literal of an IP address.
pub open spec fn is_literal(s: Seq<char>) -> bool {
    is_ipv4(s) || is_ipv6(s)
}

/// The address that an answer of the resolver holds: its only word, where
/// that is the literal of an IP address.
pub open spec fn address_in(answer: Seq<char>) -> Option<Seq<char>> {
    match first_word(answer) {
        Some(word) => if second_word(answer) is None && is_literal(word) {
            Some(word)
        } else {
            None
        },
        None => None,
    }
}

/// The views of a list of pieces.
pub open spec fn pieces_of(parts: Seq<Vec<char>>) -> Seq<Seq<char>> {
    Seq::new(parts.len(), |i: int| parts[i]@)
}

/// Copies the characters of `chars` from `from` up to `to`.
fn piece(chars: &Vec<char>, from: usize, to: usize) -> (copy: Vec<char>)
    requires
        from <= to <= chars.len(),
    ensures
        copy@ == chars@.subrange(from as int, to as int),
{
    let mut copy: Vec<char> = Vec::new();
    let mut i: usize = from;
    while i < to
        invariant
            from <= i <= to <= chars.len(),
            copy@ == chars@.subrange(from as int, i as int),
        decreases to - i,
    {
        copy.push(chars[i]);
        assert(copy@ =~= chars@.subrange(from as int, i + 1));
        i += 1;
    }
    copy
}

/// Finds the first place at or after `from` where `chars` holds `c`.
fn find_char(chars: &Vec<char>, c: char, from: usize) -> (at: usize)
    requires
        from <= chars.len(),
    ensures
        at == find(chars@, c, from as int),
        from <= at <= chars.len(),
{
    let mut at: usize = from;
    while at < chars.len() && chars[at] != c
        invariant
            from <= at <= chars.len(),
            find(chars@, c, at as int) == find(chars@, c, from as int),
        decreases chars.len() - at,
    {
        at += 1;
    }
    at
}

/// Cuts `chars` into the pieces that `c` separates.
fn split_chars(chars: &Vec<char>, c: char) -> (parts: Vec<Vec<char>>)
    ensures
        pieces_of(parts@) == split(chars@, c),
        parts.len() >= 1,
{
    let mut parts: Vec<Vec<char>> = Vec::new();
    let mut from: usize = 0;
    loop
        invariant
            from <= chars.len(),
            pieces_of(parts@) + split_from(chars@, c, from as int) == split(chars@, c),
        decreases chars.len() - from,
    {
        let end = find_char(chars, c, from);
        let part = piece(chars, from, end);
        let ghost before = pieces_of(parts@);
        parts.push(part);
        assert(pieces_of(parts@) =~= before + seq![chars@.subrange(from as int, end as int)]);
        if end >= chars.len() {
            assert(pieces_of(parts@) =~= split(chars@, c));
            return parts;
        }
        assert(before + split_from(chars@, c, from as int) =~= pieces_of(parts@) + split_from(
            chars@,
            c,
            end + 1,
        ));
        from = end + 1;
    }
}

/// Decides `is_digit`.
fn char_is_digit(c: char) -> (b: bool)
    ensures
        b == is_digit(c),
{
    let n: u32 = c as u32;
    0x30 <= n && n <= 0x39
}

/// Decides `is_hex_digit`.
fn char_is_hex_digit(c: char) -> (b: bool)
    ensures
        b == is_hex_digit(c),
{
    let n: u32 = c as u32;
    (0x30 <= n && n <= 0x39) || (0x41 <= n && n <= 0x46) || (0x61 <= n && n <= 0x66)
}

/// Decides `is_octet`.
fn part_is_octet(part: &Vec<char>) -> (b: bool)
    ensures
        b == is_octet(part@),
{
    let n: usize = part.len();
    if n < 1 || n > 3 {
        return false;
    }
    let mut value: u32 = 0;
    let mut i: usize = 0;
    while i < n
        invariant
            i <= n == part.len(),
            n <= 3,
            all_are(part@.take(i as int), |c: char| is_digit(c)),
            value == number(part@.take(i as int)),
            value <= 999,
        decreases n - i,
    {
        let c = part[i];
        if !char_is_digit(c) {
            return false;
        }
        assert(part@.take(i + 1).drop_last() =~= part@.take(i as int));
        assert(value < 1000) by {
            lemma_number_bound(part@.take(i as int));
        }
        value = value * 10 + (c as u32 - 0x30);
        assert(all_are(part@.take(i + 1), |c: char| is_digit(c))) by {
            assert forall|k: int| 0 <= k < i + 1 implies is_digit(
                #[trigger] part@.take(i + 1)[k],
            ) by {
                if k < i {
                    assert(part@.take(i as int)[k] == part@[k]);
                }
            }
        }
        assert(value <= 999) by {
            lemma_number_bound(part@.take(i + 1));
        }
        i += 1;
    }
    assert(part@.take(n as int) =~= part@);
    if n > 1 && part[0] == '0' {
        return false;
    }
    value <= 255
}

proof fn lemma_number_bound(s: Seq<char>)
    requires
        all_are(s, |c: char| is_digit(c)),
    ensures
        0 <= number(s),
        s.len() <= 0 ==> number(s) == 0,
        s.len() <= 1 ==> number(s) <= 9,
        s.len() <= 2 ==> number(s) <= 99,
        s.len() <= 3 ==> number(s) <= 999,
    decreases s.len(),
{
    if s.len() > 0 {
        assert(is_digit(s[s.len() - 1]));
        assert forall|k: int| 0 <= k < s.drop_last().len() implies is_digit(
            #[trigger] s.drop_last()[k],
        ) by {
            assert(s.drop_last()[k] == s[k]);
        }
        lemma_number_bound(s.drop_last());
    }
}

/// Decides `is_group`.
fn part_is_group(part: &Vec<char>) -> (b: bool)
    ensures
        b == is_group(part@),
{
    let n: usize = part.len();
    if n < 1 || n > 4 {
        return false;
    }
    let mut i: usize = 0;
    while i < n
        invariant
            i <= n == part.len(),
            forall|k: int| 0 <= k < i ==> is_hex_digit(#[trigger] part@[k]),
        decreases n - i,
    {
        if !char_is_hex_digit(part[i]) {
            return false;
        }
        i += 1;
    }
    true
}

/// Decides `is_ipv4`.
fn chars_are_ipv4(chars: &Vec<char>) -> (b: bool)
    ensures
        b == is_ipv4(chars@),
{
    let parts = split_chars(chars, '.');
    if parts.len() != 4 {
        return false;
    }
    let mut i: usize = 0;
    while i < 4
        invariant
            i <= 4 == parts.len(),
            pieces_of(parts@) == split(chars@, '.'),
            forall|k: int| 0 <= k < i ==> is_octet(#[trigger] split(chars@, '.')[k]),
        decreases 4 - i,
    {
        assert(pieces_of(parts@)[i as int] == parts@[i as int]@);
        if !part_is_octet(&parts[i]) {
            return false;
        }
        i += 1;
    }
    true
}

/// Counts the groups that `chars` writes, as `groups` does, up to nine:
/// more than eight are too many for any address.
fn count_groups(chars: &Vec<char>, quad: bool) -> (count: Option<usize>)
    ensures
        match count {
            Some(n) => groups(chars@, quad) matches Some(all) && n == if all <= 9 {
                all
            } else {
                9
            },
            None => groups(chars@, quad) is None,
        },
{
    if chars.len() == 0 {
        return Some(0);
    }
    let parts = split_chars(chars, ':');
    let n: usize = parts.len();
    let mut i: usize = 0;
    while i < n - 1
        invariant
            1 <= n == parts.len(),
            i <= n - 1,
            pieces_of(parts@) == split(chars@, ':'),
            forall|k: int| 0 <= k < i ==> is_group(#[trigger] split(chars@, ':')[k]),
        decreases n - i,
    {
        assert(pieces_of(parts@)[i as int] == parts@[i as int]@);
        if !part_is_group(&parts[i]) {
            assert(!is_group(split(chars@, ':')[i as int]));
            return None;
        }
        i += 1;
    }
    assert(pieces_of(parts@).last() == parts@[n - 1]@);
    if part_is_group(&parts[n - 1]) {
        Some(if n <= 9 {
            n
        } else {
            9
        })
    } else if quad && chars_are_ipv4(&parts[n - 1]) {
        Some(if n <= 8 {
            n + 1
        } else {
            9
        })
    } else {
        None
    }
}

/// Finds the first double colon of `chars`.
fn find_gap(chars: &Vec<char>) -> (at: usize)
    ensures
        at == gap(chars@, 0),
        at <= chars.len(),
        at < chars.len() ==> at + 2 <= chars.len(),
{
    let n: usize = chars.len();
    let mut at: usize = 0;
    while at < n && at + 1 < n && !(chars[at] == ':' && chars[at + 1] == ':')
        invariant
            at <= n == chars.len(),
            gap(chars@, at as int) == gap(chars@, 0),
        decreases n - at,
    {
        at += 1;
    }
    if at < n && at + 1 < n {
        at
    } else {
        n
    }
}

/// Decides `is_ipv6`.
fn chars_are_ipv6(chars: &Vec<char>) -> (b: bool)
    ensures
        b == is_ipv6(chars@),
{
    let at = find_gap(chars);
    if at < chars.len() {
        let head = piece(chars, 0, at);
        let tail = piece(chars, at + 2, chars.len());
        match (count_groups(&head, false), count_groups(&tail, true)) {
            (Some(before), Some(after)) => before + after <= 7,
            _ => false,
        }
    } else {
        match count_groups(chars, true) {
            Some(count) => count == 8,
            None => false,
        }
    }
}

/// The public address of this host: the literal of an IPv4 or IPv6 address.
/// Two addresses are the same where their literals are.
#[derive(Debug, PartialEq, Eq)]
pub struct PublicAddress {
    literal: String,
}

impl View for PublicAddress {
    type V = Seq<char>;

    closed spec fn view(&self) -> Seq<char> {
        self.literal@
    }
}

impl PublicAddress {
    #[verifier::type_invariant]
    spec fn well_formed(&self) -> bool {
        is_literal(self.literal@)
    }

    /// Takes the address out of an answer of the resolver. There is one
    /// where the answer holds one word and that word is the literal of an
    /// IP address.
    pub fn parse(answer: &str) -> (address: Option<PublicAddress>)
        ensures
            match address {
                Some(found) => address_in(answer@) == Some(found@),
                None => address_in(answer@) is None,
            },
    {
        let chars = chars_of(answer);
        match find_word(&chars, 0) {
            Some((start, end)) => {
                if find_word(&chars, end).is_some() {
                    return None;
                }
                let word = piece(&chars, start, end);
                if chars_are_ipv4(&word) || chars_are_ipv6(&word) {
                    Some(PublicAddress { literal: String::from_str(answer.substring_char(start, end)) })
                } else {
                    None
                }
            },
            None => None,
        }
    }

    /// The literal of the address.
    pub fn as_str(&self) -> (literal: &str)
        ensures
            literal@ == self@,
            is_literal(literal@),
    {
        proof {
            use_type_invariant(self);
        }
        self.literal.as_str()
    }

    /// Whether this address is the same as `other`.
    pub fn same_as(&self, other: &PublicAddress) -> (same: bool)
        ensures
            same == (self@ == other@),
    {
        self.literal == other.literal
    }

}

impl Clone for PublicAddress {
    fn clone(&self) -> (copy: PublicAddress)
        ensures
            copy@ == self@,
    {
        proof {
            use_type_invariant(self);
        }
        PublicAddress { literal: self.literal.clone() }
    }
}

} // verus!
