use vstd::prelude::*;

use crate::text::{lower_of, lowercase};

verus! {

/// Path separators recognised in file names.
pub open spec fn is_sep_char(c: char) -> bool {
    c == '/' || c == '\\'
}

/// The suffix of `s` after its last separator; all of `s` when it holds none.
pub open spec fn suffix_after_last_sep(s: Seq<char>) -> Seq<char>
    decreases s.len(),
{
    if s.len() == 0 {
        s
    } else if is_sep_char(s.last()) {
        Seq::empty()
    } else {
        suffix_after_last_sep(s.drop_last()).push(s.last())
    }
}

/// The suffix of `s` after its last dot; all of `s` when it holds none.
pub open spec fn suffix_after_last_dot(s: Seq<char>) -> Seq<char>
    decreases s.len(),
{
    if s.len() == 0 {
        s
    } else if s.last() == '.' {
        Seq::empty()
    } else {
        suffix_after_last_dot(s.drop_last()).push(s.last())
    }
}

/// The prefix of `s` before its last dot; empty when it holds none.
pub open spec fn prefix_before_last_dot(s: Seq<char>) -> Seq<char>
    decreases s.len(),
{
    if s.len() == 0 {
        s
    } else if s.last() == '.' {
        s.drop_last()
    } else {
        prefix_before_last_dot(s.drop_last())
    }
}

/// A dot anywhere past the first character splits a file name into stem and
/// extension; a name that starts with its only dot (a hidden file) has none.
pub open spec fn has_ext_dot(name: Seq<char>) -> bool {
    exists|i: int| 1 <= i < name.len() && name[i] == '.'
}

/// The file-name part of `s`: everything after the last path separator.
pub open spec fn spec_file_part(s: Seq<char>) -> Seq<char> {
    suffix_after_last_sep(s)
}

/// The stem of a file name: everything before the extension dot, or the whole
/// name when there is no extension.
pub open spec fn spec_stem_of(name: Seq<char>) -> Seq<char> {
    if has_ext_dot(name) {
        prefix_before_last_dot(name)
    } else {
        name
    }
}

/// The extension of a file name, folded to lowercase; `bin` when the name has
/// none.
pub open spec fn spec_ext_of(name: Seq<char>) -> Seq<char> {
    if has_ext_dot(name) {
        lower_of(suffix_after_last_dot(name))
    } else {
        "bin"@
    }
}

proof fn lemma_suffix_after_last_sep_at(s: Seq<char>, k: int)
    requires
        0 <= k <= s.len(),
        forall|j: int| k <= j < s.len() ==> !is_sep_char(s[j]),
        k == 0 || is_sep_char(s[k - 1]),
    ensures
        suffix_after_last_sep(s) == s.subrange(k, s.len() as int),
    decreases s.len(),
{
    if k == s.len() {
        assert(suffix_after_last_sep(s) =~= s.subrange(k, s.len() as int));
    } else {
        lemma_suffix_after_last_sep_at(s.drop_last(), k);
        assert(s.drop_last().subrange(k, s.len() - 1) =~= s.subrange(k, s.len() - 1));
        assert(suffix_after_last_sep(s) =~= s.subrange(k, s.len() as int));
    }
}

proof fn lemma_suffix_after_last_dot_at(s: Seq<char>, k: int)
    requires
        0 <= k <= s.len(),
        forall|j: int| k <= j < s.len() ==> s[j] != '.',
        k == 0 || s[k - 1] == '.',
    ensures
        suffix_after_last_dot(s) == s.subrange(k, s.len() as int),
    decreases s.len(),
{
    if k == s.len() {
        assert(suffix_after_last_dot(s) =~= s.subrange(k, s.len() as int));
    } else {
        lemma_suffix_after_last_dot_at(s.drop_last(), k);
        assert(s.drop_last().subrange(k, s.len() - 1) =~= s.subrange(k, s.len() - 1));
        assert(suffix_after_last_dot(s) =~= s.subrange(k, s.len() as int));
    }
}

proof fn lemma_prefix_before_last_dot_at(s: Seq<char>, k: int)
    requires
        0 < k <= s.len(),
        s[k - 1] == '.',
        forall|j: int| k <= j < s.len() ==> s[j] != '.',
    ensures
        prefix_before_last_dot(s) == s.subrange(0, k - 1),
    decreases s.len(),
{
    if k == s.len() {
        assert(prefix_before_last_dot(s) =~= s.subrange(0, k - 1));
    } else {
        lemma_prefix_before_last_dot_at(s.drop_last(), k);
        assert(s.drop_last().subrange(0, k - 1) =~= s.subrange(0, k - 1));
    }
}

/// Splits a file name into its stem and its lowercase extension. The name is
/// what follows the last path separator; the extension is what follows the
/// last dot of the name, provided that dot is not the name's first character;
/// a name without an extension gets the default `bin`.
pub fn split_filename(filename: &str) -> (r: (String, String))
    ensures
        r.0@ == spec_stem_of(spec_file_part(filename@)),
        r.1@ == spec_ext_of(spec_file_part(filename@)),
{
    let total = filename.unicode_len();
    let mut start = total;
    loop
        invariant
            start <= total,
            total == filename@.len(),
            forall|j: int| start <= j < total ==> !is_sep_char(filename@[j]),
        ensures
            start <= total,
            forall|j: int| start <= j < total ==> !is_sep_char(filename@[j]),
            start == 0 || is_sep_char(filename@[start - 1]),
        decreases start,
    {
        if start == 0 {
            break;
        }
        let c = filename.get_char(start - 1);
        if c == '/' || c == '\\' {
            break;
        }
        start = start - 1;
    }
    proof {
        lemma_suffix_after_last_sep_at(filename@, start as int);
    }
    let name = filename.substring_char(start, total);
    proof {
        assert(name@ == spec_file_part(filename@));
    }
    let name_len = name.unicode_len();
    let mut cut = name_len;
    loop
        invariant
            1 <= cut <= name_len || (cut == 0 && name_len == 0),
            name_len == name@.len(),
            forall|j: int| cut <= j < name_len ==> name@[j] != '.',
        ensures
            cut <= name_len,
            forall|j: int| cut <= j < name_len ==> name@[j] != '.',
            cut > 1 ==> name@[cut - 1] == '.',
            cut <= 1 ==> !has_ext_dot(name@),
        decreases cut,
    {
        if cut <= 1 {
            break;
        }
        let c = name.get_char(cut - 1);
        if c == '.' {
            break;
        }
        cut = cut - 1;
    }
    if cut > 1 {
        proof {
            lemma_prefix_before_last_dot_at(name@, cut as int);
            lemma_suffix_after_last_dot_at(name@, cut as int);
            assert(has_ext_dot(name@)) by {
                assert(1 <= cut - 1 < name@.len() && name@[cut - 1] == '.');
            }
        }
        let stem = name.substring_char(0, cut - 1);
        let ext_raw = name.substring_char(cut, name_len);
        (stem.to_owned(), lowercase(ext_raw))
    } else {
        (name.to_owned(), String::from_str("bin"))
    }
}

/// The name an uploaded file is stored under: the first 16 characters of its
/// content hash, a dot, and its extension.
pub fn stored_file_name(hash: &str, ext: &str) -> (r: String)
    requires
        hash@.len() >= 16,
    ensures
        r@ == hash@.take(16) + seq!['.'] + ext@,
{
    let prefix = hash.substring_char(0, 16);
    let mut out = prefix.to_owned();
    out.append(".");
    out.append(ext);
    proof {
        reveal_strlit(".");
        assert(out@ =~= hash@.take(16) + seq!['.'] + ext@);
    }
    out
}

/// What the SHA-256 digest of a byte sequence looks like in lowercase
/// hexadecimal. The algorithm takes pages to state, so its result is named
/// rather than written out; it depends on the input bytes alone.
pub uninterp spec fn sha256_hex(data: Seq<u8>) -> Seq<char>;

/// Relies on sha2::Sha256 and the lowercase-hexadecimal form of its digest:
/// two digits for each of the 32 digest bytes, 64 characters in all, depending
/// on the input bytes alone.
#[verifier::external_body]
fn sha256_hex_digest(data: &[u8]) -> (r: String)
    ensures
        r@ == sha256_hex(data@),
        r@.len() == 64,
{
    let digest = <sha2::Sha256 as sha2::Digest>::digest(data);
    format!("{:x}", digest)
}

/// The SHA-256 hash of `data`, as 64 lowercase hexadecimal digits.
pub fn calculate_file_hash(data: &[u8]) -> (r: String)
    ensures
        r@ == sha256_hex(data@),
        r@.len() == 64,
{
    sha256_hex_digest(data)
}

} // verus!
