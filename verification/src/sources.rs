use crate::text::chars_of;
use vstd::prelude::*;

verus! {

/// Whether `pattern` from its place `i` on matches `text` from its place
/// `j` on. In a pattern `*` stands for any run of characters, the empty one
/// too, `?` for any one character, and every other character for itself.
pub open spec fn matches_from(pattern: Seq<char>, i: int, text: Seq<char>, j: int) -> bool
    decreases pattern.len() - i, text.len() - j,
{
    if i < 0 || j < 0 {
        false
    } else if i >= pattern.len() {
        j >= text.len()
    } else if pattern[i] == '*' {
        matches_from(pattern, i + 1, text, j) || (j < text.len() && matches_from(
            pattern,
            i,
            text,
            j + 1,
        ))
    } else {
        j < text.len() && (pattern[i] == '?' || pattern[i] == text[j]) && matches_from(
            pattern,
            i + 1,
            text,
            j + 1,
        )
    }
}

/// Whether the whole of `text` matches the whole of `pattern`.
pub open spec fn matches(pattern: Seq<char>, text: Seq<char>) -> bool {
    matches_from(pattern, 0, text, 0)
}

/// Whether one of `patterns` matches `source`.
pub open spec fn allowed(patterns: Seq<&'static str>, source: Seq<char>) -> bool {
    exists|k: int| 0 <= k < patterns.len() && matches(#[trigger] patterns[k]@, source)
}

/// Decides whether the whole of `text` matches the whole of `pattern`.
pub fn pattern_matches(pattern: &str, text: &str) -> (matched: bool)
    ensures
        matched == matches(pattern@, text@),
{
    let p = chars_of(pattern);
    let t = chars_of(text);
    let plen: usize = p.len();
    let tlen: usize = t.len();
    // `below[j]` tells whether the pattern from `i` on matches the text from `j` on.
    let mut below: Vec<bool> = Vec::new();
    let mut j: usize = 0;
    while j < tlen
        invariant
            j <= tlen,
            tlen == t.len(),
            plen == p.len(),
            below.len() == j,
            forall|k: int| 0 <= k < j ==> below[k] == matches_from(p@, plen as int, t@, k),
        decreases tlen - j,
    {
        below.push(false);
        j += 1;
    }
    below.push(true);
    let mut i: usize = plen;
    while i > 0
        invariant
            i <= plen,
            tlen == t.len(),
            plen == p.len(),
            below.len() == tlen + 1,
            forall|k: int| 0 <= k <= tlen ==> below[k] == matches_from(p@, i as int, t@, k),
        decreases i,
    {
        i -= 1;
        let symbol = p[i];
        let star = symbol == '*';
        let any = symbol == '?';
        let mut row: Vec<bool> = Vec::new();
        // Filled from the end of the text, so that `row` is read backwards.
        row.push(star && below[tlen]);
        let mut done: usize = 0;
        while done < tlen
            invariant
                done <= tlen,
                i < plen,
                tlen == t.len(),
                plen == p.len(),
                symbol == p[i as int],
                star == (symbol == '*'),
                any == (symbol == '?'),
                below.len() == tlen + 1,
                row.len() == done + 1,
                forall|k: int|
                    0 <= k <= tlen ==> below[k] == matches_from(p@, i as int + 1, t@, k),
                forall|k: int|
                    0 <= k <= done ==> row[k] == matches_from(p@, i as int, t@, tlen - k),
            decreases tlen - done,
        {
            let at: usize = tlen - done - 1;
            let here = if star {
                below[at] || row[done]
            } else {
                (any || symbol == t[at]) && below[at + 1]
            };
            row.push(here);
            done += 1;
        }
        let mut turned: Vec<bool> = Vec::new();
        let mut k: usize = 0;
        while k <= tlen
            invariant
                k <= tlen + 1,
                row.len() == tlen + 1,
                turned.len() == k,
                forall|m: int| 0 <= m < k ==> turned[m] == row[tlen - m],
            decreases tlen + 1 - k,
        {
            turned.push(row[tlen - k]);
            k += 1;
        }
        below = turned;
    }
    below[0]
}

/// Decides whether one of `patterns` matches `source`.
pub fn is_allowed(patterns: &Vec<&'static str>, source: &str) -> (found: bool)
    ensures
        found == allowed(patterns@, source@),
{
    let mut k: usize = 0;
    while k < patterns.len()
        invariant
            k <= patterns.len(),
            forall|m: int| 0 <= m < k ==> !matches(#[trigger] patterns[m]@, source@),
        decreases patterns.len() - k,
    {
        if pattern_matches(patterns[k], source) {
            return true;
        }
        k += 1;
    }
    false
}

} // verus!
