//! Text as sequences of characters: white space, trimming, substring search and
//! delimiter-separated tokens.
//!
//! Every function here is stated over `Seq<char>`, the view of `str` and `String`.

use vstd::prelude::*;
use vstd::string::StrSliceExecFns;
use vstd::string::StringExecFns;

verus! {

/// Whether `c` has the Unicode property `White_Space`.
pub open spec fn white_space(c: char) -> bool {
    let n = c as u32;
    ||| 0x09 <= n <= 0x0D
    ||| n == 0x20
    ||| n == 0x85
    ||| n == 0xA0
    ||| n == 0x1680
    ||| 0x2000 <= n <= 0x200A
    ||| n == 0x2028
    ||| n == 0x2029
    ||| n == 0x202F
    ||| n == 0x205F
    ||| n == 0x3000
}

/// Whether `s` holds white space only. The empty text is blank.
pub open spec fn is_blank(s: Seq<char>) -> bool {
    forall|i: int| 0 <= i < s.len() ==> white_space(#[trigger] s[i])
}

/// `s` without its leading white space.
pub open spec fn trim_start(s: Seq<char>) -> Seq<char>
    decreases s.len(),
{
    if s.len() > 0 && white_space(s.first()) {
        trim_start(s.drop_first())
    } else {
        s
    }
}

/// `s` without its trailing white space.
pub open spec fn trim_end(s: Seq<char>) -> Seq<char>
    decreases s.len(),
{
    if s.len() > 0 && white_space(s.last()) {
        trim_end(s.drop_last())
    } else {
        s
    }
}

/// `s` without its leading and trailing white space.
pub open spec fn trimmed(s: Seq<char>) -> Seq<char> {
    trim_end(trim_start(s))
}

/// Whether `needle` stands in `hay` at position `at`.
pub open spec fn occurs_at(hay: Seq<char>, needle: Seq<char>, at: int) -> bool {
    &&& 0 <= at
    &&& at + needle.len() <= hay.len()
    &&& hay.subrange(at, at + needle.len()) == needle
}

/// Whether `needle` stands somewhere in `hay`.
pub open spec fn contains(hay: Seq<char>, needle: Seq<char>) -> bool {
    exists|at: int| occurs_at(hay, needle, at)
}

/// The number of characters of `s` before its first `delimiter`; the length of
/// `s` where it holds none.
pub open spec fn run_length(s: Seq<char>, delimiter: char) -> nat
    decreases s.len(),
{
    if s.len() == 0 || s.first() == delimiter {
        0
    } else {
        1 + run_length(s.drop_first(), delimiter)
    }
}

/// The token of index `n`, counted from 0, among those that `delimiter` parts
/// `s` into. A text without a delimiter is one token; two delimiters in a row
/// hold an empty token between them.
pub open spec fn token(s: Seq<char>, delimiter: char, n: nat) -> Option<Seq<char>>
    decreases n,
{
    let k = run_length(s, delimiter) as int;
    if n == 0 {
        Some(s.take(k))
    } else if k >= s.len() {
        None
    } else {
        token(s.skip(k + 1), delimiter, (n - 1) as nat)
    }
}

/// The views of the texts in `pieces`, in order.
pub open spec fn views(pieces: Seq<&str>) -> Seq<Seq<char>> {
    Seq::new(pieces.len(), |i: int| pieces[i]@)
}

/// The view of an optional text.
pub open spec fn opt_view(s: Option<&str>) -> Option<Seq<char>> {
    match s {
        Some(s) => Some(s@),
        None => None,
    }
}

/// The view of an optional owned text.
pub open spec fn opt_string_view(s: Option<String>) -> Option<Seq<char>> {
    match s {
        Some(s) => Some(s@),
        None => None,
    }
}

/// Whether `s` holds no `delimiter`.
pub open spec fn free_of(s: Seq<char>, delimiter: char) -> bool {
    forall|i: int| 0 <= i < s.len() ==> #[trigger] s[i] != delimiter
}

/// A text without a delimiter is one run.
pub proof fn lemma_run_without_delimiter(s: Seq<char>, delimiter: char)
    requires
        free_of(s, delimiter),
    ensures
        run_length(s, delimiter) == s.len(),
    decreases s.len(),
{
    if s.len() > 0 {
        let rest = s.drop_first();
        assert forall|i: int| 0 <= i < rest.len() implies #[trigger] rest[i] != delimiter by {
            assert(rest[i] == s[i + 1]);
        }
        lemma_run_without_delimiter(rest, delimiter);
    }
}

/// The first run of a text ends at its first delimiter.
pub proof fn lemma_run_ends_at_delimiter(before: Seq<char>, delimiter: char, after: Seq<char>)
    requires
        free_of(before, delimiter),
    ensures
        run_length(before + seq![delimiter] + after, delimiter) == before.len(),
    decreases before.len(),
{
    let whole = before + seq![delimiter] + after;
    if before.len() > 0 {
        let rest = before.drop_first();
        assert forall|i: int| 0 <= i < rest.len() implies #[trigger] rest[i] != delimiter by {
            assert(rest[i] == before[i + 1]);
        }
        assert(whole.drop_first() =~= rest + seq![delimiter] + after);
        lemma_run_ends_at_delimiter(rest, delimiter, after);
    }
}

/// `trim_start` drops a run of white space from the front and stops at the
/// first character that is none.
pub proof fn lemma_trim_start_is_suffix(s: Seq<char>)
    ensures
        trim_start(s).len() <= s.len(),
        trim_start(s) == s.skip(s.len() - trim_start(s).len()),
        forall|i: int| 0 <= i < s.len() - trim_start(s).len() ==> white_space(#[trigger] s[i]),
        trim_start(s).len() > 0 ==> !white_space(trim_start(s).first()),
    decreases s.len(),
{
    if s.len() > 0 && white_space(s.first()) {
        let rest = s.drop_first();
        lemma_trim_start_is_suffix(rest);
        assert(rest.skip(rest.len() - trim_start(rest).len()) =~= s.skip(
            s.len() - trim_start(rest).len(),
        ));
        assert forall|i: int| 0 <= i < s.len() - trim_start(s).len() implies white_space(
            #[trigger] s[i],
        ) by {
            if i > 0 {
                assert(s[i] == rest[i - 1]);
            }
        }
    } else {
        assert(s.skip(0) =~= s);
    }
}

/// `trim_end` drops a run of white space from the back and stops at the last
/// character that is none.
pub proof fn lemma_trim_end_is_prefix(s: Seq<char>)
    ensures
        trim_end(s).len() <= s.len(),
        trim_end(s) == s.take(trim_end(s).len() as int),
        forall|i: int| trim_end(s).len() <= i < s.len() ==> white_space(#[trigger] s[i]),
        trim_end(s).len() > 0 ==> !white_space(trim_end(s).last()),
    decreases s.len(),
{
    if s.len() > 0 && white_space(s.last()) {
        let rest = s.drop_last();
        lemma_trim_end_is_prefix(rest);
        assert(rest.take(trim_end(rest).len() as int) =~= s.take(trim_end(rest).len() as int));
        assert forall|i: int| trim_end(s).len() <= i < s.len() implies white_space(
            #[trigger] s[i],
        ) by {
            if i < s.len() - 1 {
                assert(s[i] == rest[i]);
            }
        }
    } else {
        assert(s.take(s.len() as int) =~= s);
    }
}

/// A blank text trims to nothing, and only a blank text does.
pub proof fn lemma_blank_iff_trims_to_nothing(s: Seq<char>)
    ensures
        is_blank(s) <==> trimmed(s).len() == 0,
{
    let rest = trim_start(s);
    let dropped = s.len() - rest.len();
    lemma_trim_start_is_suffix(s);
    lemma_trim_end_is_prefix(rest);
    if rest.len() > 0 {
        // The first character that is kept is no white space, so `s` is not
        // blank, and trimming the end stops at it at the latest.
        assert(rest.first() == s[dropped]);
        assert(!white_space(s[dropped]));
        if trimmed(s).len() == 0 {
            assert(white_space(rest[0]));
        }
    }
}

/// Trimming a text that is already trimmed changes nothing.
pub proof fn lemma_trimmed_is_stable(s: Seq<char>)
    ensures
        trimmed(trimmed(s)) == trimmed(s),
{
    let kept = trim_start(s);
    lemma_trim_start_is_suffix(s);
    lemma_trim_end_is_prefix(kept);
    if trimmed(s).len() > 0 {
        assert(trimmed(s).first() == kept.first());
    }
}

/// Whether `c` is white space.
pub fn is_whitespace(c: char) -> (white: bool)
    ensures
        white == white_space(c),
{
    let n: u32 = c as u32;
    (0x09 <= n && n <= 0x0D) || n == 0x20 || n == 0x85 || n == 0xA0 || n == 0x1680 || (0x2000 <= n
        && n <= 0x200A) || n == 0x2028 || n == 0x2029 || n == 0x202F || n == 0x205F || n == 0x3000
}

/// The characters of `s`, one entry for each.
pub fn chars_of(s: &str) -> (chars: Vec<char>)
    ensures
        chars@ == s@,
{
    let mut chars: Vec<char> = Vec::new();
    for c in it: s.chars()
        invariant
            it.seq() == s@,
            chars@ == it.seq().take(it.index() as int),
    {
        chars.push(c);
    }
    chars
}

/// Whether `s` holds white space only.
pub fn blank(s: &str) -> (b: bool)
    ensures
        b == is_blank(s@),
{
    let chars = chars_of(s);
    let mut i: usize = 0;
    while i < chars.len()
        invariant
            i <= chars.len(),
            chars@ == s@,
            forall|j: int| 0 <= j < i ==> white_space(#[trigger] chars@[j]),
        decreases chars.len() - i,
    {
        if !is_whitespace(chars[i]) {
            return false;
        }
        i += 1;
    }
    true
}

/// The part of `s` between its leading and its trailing white space.
pub fn trim(s: &str) -> (t: &str)
    ensures
        t@ == trimmed(s@),
{
    let chars = chars_of(s);
    let n = chars.len();
    let mut start: usize = 0;
    assert(chars@.skip(0) =~= chars@);
    while start < n && is_whitespace(chars[start])
        invariant
            start <= n,
            n == chars@.len(),
            trim_start(chars@) == trim_start(chars@.skip(start as int)),
        decreases n - start,
    {
        assert(chars@.skip(start as int).drop_first() =~= chars@.skip(start as int + 1));
        start += 1;
    }
    let ghost rest = chars@.skip(start as int);
    let mut end: usize = n;
    while end > start && is_whitespace(chars[end - 1])
        invariant
            start <= end <= n,
            n == chars@.len(),
            trim_end(rest) == trim_end(chars@.subrange(start as int, end as int)),
        decreases end - start,
    {
        assert(chars@.subrange(start as int, end as int).drop_last() =~= chars@.subrange(
            start as int,
            end as int - 1,
        ));
        end -= 1;
    }
    s.substring_char(start, end)
}

/// Whether `needle` stands in `hay` at position `at`.
fn matches_at(hay: &Vec<char>, needle: &Vec<char>, at: usize) -> (found: bool)
    requires
        at + needle.len() <= hay.len(),
    ensures
        found == occurs_at(hay@, needle@, at as int),
{
    let mut j: usize = 0;
    while j < needle.len()
        invariant
            j <= needle.len(),
            at + needle.len() <= hay.len(),
            forall|k: int| 0 <= k < j ==> hay@[at + k] == #[trigger] needle@[k],
        decreases needle.len() - j,
    {
        if hay[at + j] != needle[j] {
            return false;
        }
        j += 1;
    }
    assert(hay@.subrange(at as int, at + needle.len()) =~= needle@);
    true
}

/// Whether `needle` stands somewhere in `hay`.
pub fn holds(hay: &str, needle: &str) -> (found: bool)
    ensures
        found == contains(hay@, needle@),
{
    let text = chars_of(hay);
    let word = chars_of(needle);
    if word.len() == 0 {
        assert(occurs_at(hay@, needle@, 0)) by {
            assert(hay@.subrange(0, 0) =~= needle@);
        }
        return true;
    }
    if word.len() > text.len() {
        return false;
    }
    let last = text.len() - word.len();
    let mut at: usize = 0;
    while at <= last
        invariant
            at <= last + 1,
            last == text.len() - word.len(),
            word.len() > 0,
            text@ == hay@,
            word@ == needle@,
            forall|k: int| 0 <= k < at ==> !occurs_at(hay@, needle@, k),
        decreases last + 1 - at,
    {
        if matches_at(&text, &word, at) {
            return true;
        }
        at += 1;
    }
    false
}

/// The token of index `n` of `s`, as `str::split` with a character and
/// `Iterator::nth` give it.
pub fn split_nth(s: &str, delimiter: char, n: usize) -> (part: Option<&str>)
    ensures
        opt_view(part) == token(s@, delimiter, n as nat),
{
    let chars = chars_of(s);
    let len = chars.len();
    let mut start: usize = 0;
    let mut left: usize = n;
    assert(chars@.skip(0) =~= chars@);
    loop
        invariant
            start <= len,
            len == chars@.len(),
            chars@ == s@,
            token(s@, delimiter, n as nat) == token(
                chars@.skip(start as int),
                delimiter,
                left as nat,
            ),
        decreases left,
    {
        let ghost rest = chars@.skip(start as int);
        let mut end: usize = start;
        assert(chars@.skip(start as int).skip(0) =~= rest);
        while end < len && chars[end] != delimiter
            invariant
                start <= end <= len,
                len == chars@.len(),
                rest == chars@.skip(start as int),
                run_length(rest, delimiter) == (end - start) + run_length(
                    rest.skip(end - start),
                    delimiter,
                ),
            decreases len - end,
        {
            assert(rest.skip(end - start).drop_first() =~= rest.skip(end - start + 1));
            end += 1;
        }
        if left == 0 {
            return Some(s.substring_char(start, end));
        }
        if end >= len {
            return None;
        }
        assert(rest.skip(end - start + 1) =~= chars@.skip(end as int + 1));
        start = end + 1;
        left -= 1;
    }
}

/// The texts of `pieces`, one after the other.
pub fn join_pieces(pieces: &Vec<&str>) -> (whole: String)
    ensures
        whole@ == views(pieces@).flatten(),
{
    let mut whole = String::new();
    let mut i: usize = 0;
    while i < pieces.len()
        invariant
            i <= pieces.len(),
            whole@ == views(pieces@).take(i as int).flatten(),
        decreases pieces.len() - i,
    {
        proof {
            let all = views(pieces@);
            assert(all.take(i as int + 1) =~= all.take(i as int).push(all[i as int]));
            all.take(i as int).lemma_flatten_push(all[i as int]);
        }
        whole.append(pieces[i]);
        i += 1;
    }
    assert(views(pieces@).take(pieces.len() as int) =~= views(pieces@));
    whole
}

} // verus!
