//! Resolving the application bundle's binary directory from the running
//! executable's path.
//!
//! A path is recognized as living inside a packaged application bundle
//! exactly when it contains the marker segment `.app/Contents/MacOS`; the
//! bundle binary directory is then the parent of the executable, i.e. the
//! prefix of the path before its last separator.  The host obtains the
//! executable path and hands it in; everything here is pure string logic.

use vstd::prelude::*;
use vstd::utf8::{decode_utf8, encode_utf8, is_char_boundary, is_continuation_byte, valid_utf8};

verus! {

/// The directory-segment pattern that marks an executable running inside an
/// application bundle's binary folder, as its UTF-8 bytes.
pub open spec fn bundle_marker() -> Seq<u8> {
    encode_utf8(".app/Contents/MacOS"@)
}

/// Whether `pat` occurs in `s` starting at index `i`.
pub open spec fn seq_matches_at(s: Seq<u8>, pat: Seq<u8>, i: int) -> bool {
    &&& 0 <= i
    &&& i + pat.len() <= s.len()
    &&& s.subrange(i, i + pat.len() as int) == pat
}

/// Whether `pat` occurs anywhere in `s`.
pub open spec fn contains_pattern(s: Seq<u8>, pat: Seq<u8>) -> bool {
    exists|i: int| seq_matches_at(s, pat, i)
}

/// The index of the last path separator in `s`, or -1 when there is none.
pub open spec fn last_separator(s: Seq<u8>) -> int
    decreases s.len(),
{
    if s.len() == 0 {
        -1
    } else if s[s.len() - 1] == 47u8 {
        s.len() - 1
    } else {
        last_separator(s.drop_last())
    }
}

/// The bundle binary directory encoded in the UTF-8 bytes of an executable
/// path: present exactly when the marker segment occurs and the path has a
/// parent, and then equal to the prefix before the last separator.
pub open spec fn bundle_dir_bytes(s: Seq<u8>) -> Option<Seq<u8>> {
    if contains_pattern(s, bundle_marker()) && last_separator(s) >= 0 {
        Some(s.subrange(0, last_separator(s)))
    } else {
        None
    }
}

/// Compares one candidate position of the pattern.
fn matches_at(s: &[u8], pat: &[u8], i: usize) -> (r: bool)
    requires
        i + pat@.len() <= s@.len(),
    ensures
        r == seq_matches_at(s@, pat@, i as int),
{
    let slen = s.len();
    let mut k: usize = 0;
    while k < pat.len()
        invariant
            slen == s@.len(),
            i + pat@.len() <= s@.len(),
            k <= pat@.len(),
            forall|j: int| 0 <= j < k ==> s@[i + j] == pat@[j],
        decreases pat@.len() - k,
    {
        if s[i + k] != pat[k] {
            proof {
                assert(s@.subrange(i as int, i + pat@.len())[k as int] == s@[i + k]);
            }
            return false;
        }
        k = k + 1;
    }
    proof {
        assert(s@.subrange(i as int, i + pat@.len()) =~= pat@);
    }
    true
}

/// Whether `pat` occurs anywhere in `s`.
fn contains_slice(s: &[u8], pat: &[u8]) -> (r: bool)
    ensures
        r == contains_pattern(s@, pat@),
{
    if pat.len() > s.len() {
        return false;
    }
    if pat.len() == 0 {
        proof {
            assert(s@.subrange(0, 0) =~= pat@);
            assert(seq_matches_at(s@, pat@, 0));
        }
        return true;
    }
    let slen = s.len();
    let end = slen - pat.len();
    let mut i: usize = 0;
    while i <= end
        invariant
            slen == s@.len(),
            1 <= pat@.len() <= s@.len(),
            end == s@.len() - pat@.len(),
            i <= end + 1,
            forall|j: int| 0 <= j < i ==> !seq_matches_at(s@, pat@, j),
        decreases end + 1 - i,
    {
        if matches_at(s, pat, i) {
            return true;
        }
        i = i + 1;
    }
    proof {
        assert(forall|j: int| seq_matches_at(s@, pat@, j) ==> 0 <= j <= end);
    }
    false
}

/// While no separator occurs at or after `i`, the last separator of the
/// whole sequence is the last separator of the prefix before `i`.
proof fn lemma_last_separator_prefix(s: Seq<u8>, i: int)
    requires
        0 <= i <= s.len(),
        forall|j: int| i <= j < s.len() ==> s[j] != 47u8,
    ensures
        last_separator(s) == last_separator(s.take(i)),
    decreases s.len() - i,
{
    if i == s.len() {
        assert(s.take(i) =~= s);
    } else {
        lemma_last_separator_prefix(s.drop_last(), i);
        assert(s.drop_last().take(i) =~= s.take(i));
    }
}

/// Finds the index of the last path separator.
fn last_separator_index(s: &[u8]) -> (r: Option<usize>)
    ensures
        r matches Some(i) ==> i < s@.len() && last_separator(s@) == i as int && s@[i as int]
            == 47u8,
        r is None ==> last_separator(s@) == -1,
{
    let mut i: usize = s.len();
    while i > 0
        invariant
            i <= s@.len(),
            forall|j: int| i <= j < s@.len() ==> s@[j] != 47u8,
        decreases i,
    {
        i = i - 1;
        if s[i] == 47u8 {
            proof {
                lemma_last_separator_prefix(s@, i + 1);
                assert(s@.take(i + 1).drop_last() =~= s@.take(i as int));
                assert(s@.take(i + 1)[i as int] == 47u8);
            }
            return Some(i);
        }
    }
    proof {
        lemma_last_separator_prefix(s@, 0);
        assert(s@.take(0) =~= Seq::<u8>::empty());
    }
    None
}

/// Resolves the bundle binary directory from an executable path: the prefix
/// before the last separator, present exactly when the path contains the
/// bundle marker segment (and hence a separator at all).
pub fn bundle_dir_of_exe(exe_path: &str) -> (r: Option<String>)
    ensures
        r is Some <==> bundle_dir_bytes(encode_utf8(exe_path@)) is Some,
        r matches Some(d) ==> Some(encode_utf8(d@)) == bundle_dir_bytes(encode_utf8(exe_path@)),
        r matches Some(d) ==> d@.len() <= exe_path@.len() && d@ == exe_path@.take(
            d@.len() as int,
        ),
{
    broadcast use vstd::utf8::encode_utf8_valid_utf8;
    broadcast use vstd::utf8::is_char_boundary_iff_not_is_continuation_byte;

    let bytes = exe_path.as_bytes();
    let marker_bytes = ".app/Contents/MacOS".as_bytes();
    if !contains_slice(bytes, marker_bytes) {
        return None;
    }
    match last_separator_index(bytes) {
        None => None,
        Some(i) => {
            proof {
                assert(valid_utf8(encode_utf8(exe_path@)));
                assert(encode_utf8(exe_path@)[i as int] == 47u8);
                assert(!is_continuation_byte(47u8));
                assert(is_char_boundary(encode_utf8(exe_path@), i as int));
            }
            let (prefix, _rest) = exe_path.split_at(i);
            proof {
                lemma_boundary_prefix_is_char_prefix(exe_path@, prefix@, i as int);
            }
            Some(prefix.to_owned())
        },
    }
}

/// A prefix cut at a character boundary is a prefix of the characters: when
/// the UTF-8 bytes of `pre` are the first `i` bytes of those of `s`, `pre`
/// is the corresponding leading run of the characters of `s`.
proof fn lemma_boundary_prefix_is_char_prefix(s: Seq<char>, pre: Seq<char>, i: int)
    requires
        is_char_boundary(encode_utf8(s), i),
        0 <= i <= encode_utf8(s).len(),
        encode_utf8(pre) == encode_utf8(s).subrange(0, i),
    ensures
        pre.len() <= s.len(),
        pre == s.take(pre.len() as int),
{
    broadcast use vstd::utf8::encode_utf8_valid_utf8;
    broadcast use vstd::utf8::encode_utf8_decode_utf8;

    let bytes = encode_utf8(s);
    vstd::utf8::decode_utf8_split(bytes, i);
    let rest = decode_utf8(bytes.subrange(i, bytes.len() as int));
    assert(decode_utf8(bytes.subrange(0, i)) == pre);
    assert(s == pre + rest);
    assert(pre =~= (pre + rest).take(pre.len() as int));
}

} // verus!
