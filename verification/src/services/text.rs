//! Texts as sequences of characters: searching and trimming.

use vstd::prelude::*;
use vstd::string::StringExecFns;

verus! {

/// What `str::parse::<i32>` makes of a text: the number it reads, or `None`
/// where it reports an error.
pub uninterp spec fn parsed_i32(text: Seq<char>) -> Option<i32>;

/// Reads a decimal number with `str::parse::<i32>`. The contract names the
/// result, which depends on the text alone.
#[verifier::external_body]
pub(crate) fn parse_i32(text: &str) -> (number: Option<i32>)
    ensures
        number == parsed_i32(text@),
{
    text.parse::<i32>().ok()
}

/// Whether two texts hold the same characters.
pub fn same_text(a: &str, b: &str) -> (r: bool)
    ensures
        r == (a@ == b@),
{
    String::from_str(a) == String::from_str(b)
}

/// Whether `needle` stands in `hay` at position `at`.
pub open spec fn occurs_at(hay: Seq<char>, needle: Seq<char>, at: int) -> bool {
    0 <= at && at + needle.len() <= hay.len() && hay.subrange(at, at + needle.len()) == needle
}

/// Whether `at` is the first position at which `needle` stands in `hay`.
pub open spec fn first_occurrence(hay: Seq<char>, needle: Seq<char>, at: int) -> bool {
    occurs_at(hay, needle, at) && forall|before: int|
        0 <= before < at ==> !occurs_at(hay, needle, before)
}

/// Whether `needle` stands nowhere in `hay`.
pub open spec fn absent(hay: Seq<char>, needle: Seq<char>) -> bool {
    forall|at: int| !occurs_at(hay, needle, at)
}

/// `text` without the run of `c` at its start.
pub open spec fn trim_start(text: Seq<char>, c: char) -> Seq<char>
    decreases text.len(),
{
    if text.len() > 0 && text[0] == c {
        trim_start(text.drop_first(), c)
    } else {
        text
    }
}

/// `text` without the run of `c` at its end.
pub open spec fn trim_end(text: Seq<char>, c: char) -> Seq<char>
    decreases text.len(),
{
    if text.len() > 0 && text.last() == c {
        trim_end(text.drop_last(), c)
    } else {
        text
    }
}

/// Skipping a run of `c` at the start of a text and trimming the rest is
/// trimming the text.
pub proof fn lemma_trim_start_skips(text: Seq<char>, c: char, run: int)
    requires
        0 <= run <= text.len(),
        forall|i: int| 0 <= i < run ==> text[i] == c,
    ensures
        trim_start(text, c) == trim_start(text.skip(run), c),
    decreases run,
{
    if run == 0 {
        assert(text.skip(0) =~= text);
    } else {
        let rest = text.drop_first();
        assert(forall|i: int| 0 <= i < run - 1 ==> rest[i] == text[i + 1]);
        lemma_trim_start_skips(rest, c, run - 1);
        assert(rest.skip(run - 1) =~= text.skip(run));
    }
}

/// Dropping a run of `c` at the end of a text and trimming the rest is
/// trimming the text.
pub proof fn lemma_trim_end_takes(text: Seq<char>, c: char, kept: int)
    requires
        0 <= kept <= text.len(),
        forall|i: int| kept <= i < text.len() ==> text[i] == c,
    ensures
        trim_end(text, c) == trim_end(text.take(kept), c),
    decreases text.len() - kept,
{
    if kept == text.len() {
        assert(text.take(kept) =~= text);
    } else {
        let rest = text.drop_last();
        lemma_trim_end_takes(rest, c, kept);
        assert(rest.take(kept) =~= text.take(kept));
    }
}

/// The characters of a text, in order.
pub fn chars_of(text: &str) -> (chars: Vec<char>)
    ensures
        chars@ == text@,
{
    let mut chars: Vec<char> = Vec::new();
    for c in it: text.chars()
        invariant
            it.seq() == text@,
            chars@ == it.seq().take(it.index() as int),
    {
        chars.push(c);
    }
    chars
}

/// Whether `needle` stands in `hay` at position `at`.
pub fn stands_at(hay: &Vec<char>, needle: &Vec<char>, at: usize) -> (r: bool)
    ensures
        r == occurs_at(hay@, needle@, at as int),
{
    if at > hay.len() || needle.len() > hay.len() - at {
        return false;
    }
    let mut k: usize = 0;
    while k < needle.len()
        invariant
            k <= needle.len(),
            at + needle.len() <= hay.len(),
            forall|j: int| 0 <= j < k ==> hay[at + j] == needle[j],
        decreases needle.len() - k,
    {
        if hay[at + k] != needle[k] {
            assert(hay@.subrange(at as int, at + needle.len())[k as int] != needle@[k as int]);
            return false;
        }
        k += 1;
    }
    assert(hay@.subrange(at as int, at + needle.len()) =~= needle@);
    true
}

/// The first position at which `needle` stands in `hay`, if it stands
/// anywhere.
pub fn find_first(hay: &Vec<char>, needle: &Vec<char>) -> (found: Option<usize>)
    ensures
        match found {
            Some(at) => first_occurrence(hay@, needle@, at as int),
            None => absent(hay@, needle@),
        },
{
    if needle.len() > hay.len() {
        return None;
    }
    let last: usize = hay.len() - needle.len();
    let mut at: usize = 0;
    loop
        invariant
            at <= last,
            last == hay.len() - needle.len(),
            needle.len() <= hay.len(),
            forall|before: int| 0 <= before < at ==> !occurs_at(hay@, needle@, before),
        decreases last - at,
    {
        if stands_at(hay, needle, at) {
            return Some(at);
        }
        if at == last {
            return None;
        }
        at += 1;
    }
}

/// Where the run of `c` that starts at position `from` of `text` ends: the
/// first position from `from` on that holds another character, or the end
/// of the text. A position beyond the text is handed back as it is.
pub fn run_from(text: &Vec<char>, from: usize, c: char) -> (end: usize)
    ensures
        from <= end,
        from <= text.len() ==> end <= text.len() && text@.skip(end as int) == trim_start(
            text@.skip(from as int),
            c,
        ),
        from > text.len() ==> end == from,
{
    if from > text.len() {
        return from;
    }
    let mut end: usize = from;
    while end < text.len() && text[end] == c
        invariant
            from <= end <= text.len(),
            forall|i: int| from <= i < end ==> text[i] == c,
        decreases text.len() - end,
    {
        end += 1;
    }
    proof {
        let tail = text@.skip(from as int);
        lemma_trim_start_skips(tail, c, end - from);
        assert(tail.skip(end - from) =~= text@.skip(end as int));
    }
    end
}

/// The length of `text` without the run of `c` at its end.
pub fn trimmed_len(text: &Vec<char>, c: char) -> (kept: usize)
    ensures
        kept <= text.len(),
        text@.take(kept as int) == trim_end(text@, c),
{
    let mut kept: usize = text.len();
    while kept > 0 && text[kept - 1] == c
        invariant
            kept <= text.len(),
            forall|i: int| kept <= i < text.len() ==> text[i] == c,
        decreases kept,
    {
        kept -= 1;
    }
    proof {
        lemma_trim_end_takes(text@, c, kept as int);
    }
    kept
}

} // verus!
