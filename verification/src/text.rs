use vstd::prelude::*;

verus! {

/// The whitespace characters that the line protocol strips from the end of a
/// response line: space, tab, carriage return, and newline.
pub open spec fn is_ws_char(c: char) -> bool {
    c == ' ' || c == '\t' || c == '\r' || c == '\n'
}

/// Executable counterpart of `is_ws_char`.
pub fn is_whitespace_char(c: char) -> (r: bool)
    ensures
        r == is_ws_char(c),
{
    c == ' ' || c == '\t' || c == '\r' || c == '\n'
}

/// `s` with every trailing whitespace character removed.
pub open spec fn spec_trim_end(s: Seq<char>) -> Seq<char>
    decreases s.len(),
{
    if s.len() == 0 {
        s
    } else if is_ws_char(s.last()) {
        spec_trim_end(s.drop_last())
    } else {
        s
    }
}

/// A sequence is blank when every character in it is whitespace.
pub open spec fn is_blank(s: Seq<char>) -> bool {
    forall|i: int| 0 <= i < s.len() ==> is_ws_char(s[i])
}

proof fn lemma_trim_end_step(s: Seq<char>, end: int)
    requires
        0 < end <= s.len(),
        is_ws_char(s[end - 1]),
    ensures
        spec_trim_end(s.take(end)) == spec_trim_end(s.take(end - 1)),
{
    assert(s.take(end).last() == s[end - 1]);
    assert(s.take(end).drop_last() =~= s.take(end - 1));
}

proof fn lemma_trim_end_done(s: Seq<char>, end: int)
    requires
        0 <= end <= s.len(),
        end == 0 || !is_ws_char(s[end - 1]),
    ensures
        spec_trim_end(s.take(end)) == s.take(end),
{
    if end == 0 {
        assert(s.take(0).len() == 0);
    } else {
        assert(s.take(end).last() == s[end - 1]);
    }
}

/// Removes trailing whitespace from `s`, leaving everything else unchanged.
pub fn trim_end(s: &str) -> (r: String)
    ensures
        r@ == spec_trim_end(s@),
{
    let total = s.unicode_len();
    let mut end = total;
    proof {
        assert(s@.take(total as int) =~= s@);
    }
    loop
        invariant
            end <= total,
            total == s@.len(),
            spec_trim_end(s@) == spec_trim_end(s@.take(end as int)),
        ensures
            end <= s@.len(),
            spec_trim_end(s@) == spec_trim_end(s@.take(end as int)),
            end == 0 || !is_ws_char(s@[end as int - 1]),
        decreases end,
    {
        if end == 0 {
            break;
        }
        let c = s.get_char(end - 1);
        if !is_whitespace_char(c) {
            break;
        }
        proof {
            lemma_trim_end_step(s@, end as int);
        }
        end = end - 1;
    }
    proof {
        lemma_trim_end_done(s@, end as int);
    }
    let kept = s.substring_char(0, end);
    proof {
        assert(s@.subrange(0, end as int) =~= s@.take(end as int));
    }
    kept.to_owned()
}

/// The lowercase form of a piece of text. Case folding covers the whole of
/// Unicode, so the mapping is named rather than written out; it depends on the
/// characters alone.
pub uninterp spec fn lower_of(s: Seq<char>) -> Seq<char>;

/// Relies on str::to_lowercase: the result depends on the characters alone.
#[verifier::external_body]
pub(crate) fn lowercase(s: &str) -> (r: String)
    ensures
        r@ == lower_of(s@),
{
    s.to_lowercase()
}

/// Character-for-character equality of two string slices.
pub fn str_eq(a: &str, b: &str) -> (r: bool)
    ensures
        r == (a@ == b@),
{
    let owned_a = a.to_owned();
    let owned_b = b.to_owned();
    owned_a == owned_b
}

/// Whether `s` consists of whitespace only.
pub fn is_blank_str(s: &str) -> (r: bool)
    ensures
        r == is_blank(s@),
{
    let total = s.unicode_len();
    let mut i: usize = 0;
    while i < total
        invariant
            i <= total,
            total == s@.len(),
            forall|j: int| 0 <= j < i ==> is_ws_char(s@[j]),
        decreases total - i,
    {
        let c = s.get_char(i);
        if !is_whitespace_char(c) {
            return false;
        }
        i = i + 1;
    }
    true
}

} // verus!
