//! Names of actors and actions: the number that stands for a name, and the
//! name of the enum variant that goes with it.

use vstd::prelude::*;
use vstd::string::*;
use vstd::utf8::encode_utf8;

verus! {

/// The 64-bit XXH3 hash, with seed 0 and the default secret, of a sequence
/// of bytes: what `xxhash_rust::xxh3::xxh3_64` returns for them.
pub uninterp spec fn xxh3_64_of(bytes: Seq<u8>) -> u64;

/// `xxhash_rust::xxh3::xxh3_64` computes the hash from the bytes of its
/// input and from nothing else, so equal inputs give equal hashes. Nothing
/// is claimed about which number comes out.
pub assume_specification[ xxhash_rust::xxh3::xxh3_64 ](input: &[u8]) -> (hash: u64)
    ensures
        hash == xxh3_64_of(input@),
;

/// The uppercase form of a character as `char::to_uppercase` of the standard
/// library gives it: one or more characters, by the Unicode tables.
pub uninterp spec fn uppercase_of(c: char) -> Seq<char>;

/// `char::to_uppercase` yields the uppercase mapping of the character, which
/// depends on the character alone; the characters it yields are collected
/// into a string. Nothing is claimed about which characters they are.
#[verifier::external_body]
fn to_uppercase(c: char) -> (upper: String)
    ensures
        upper@ == uppercase_of(c),
{
    c.to_uppercase().collect()
}

/// The id of an actor or action name: the hash of its UTF-8 bytes.
pub open spec fn act_id(name: Seq<char>) -> u64 {
    xxh3_64_of(encode_utf8(name))
}

/// A string with its first character in uppercase; the empty string stays
/// empty.
pub open spec fn capitalized(s: Seq<char>) -> Seq<char> {
    if s.len() == 0 {
        Seq::empty()
    } else {
        uppercase_of(s[0]) + s.skip(1)
    }
}

/// `s` with `head` in place of its first character; `head` alone where `s`
/// is empty.
pub open spec fn with_head(head: Seq<char>, s: Seq<char>) -> Seq<char> {
    if s.len() == 0 {
        head
    } else {
        head + s.skip(1)
    }
}

/// Convert actor/action to number id using xxh3_64.
pub fn get_act_id(act: &str) -> (id: u64)
    ensures
        id == act_id(act@),
{
    xxhash_rust::xxh3::xxh3_64(act.as_bytes())
}

/// Puts `head` in place of the first character of `s`.
pub fn replace_head(head: String, s: &str) -> (replaced: String)
    ensures
        replaced@ == with_head(head@, s@),
{
    let len = s.unicode_len();
    if len == 0 {
        head
    } else {
        let tail = s.substring_char(1, len);
        assert(s@.subrange(1, len as int) =~= s@.skip(1));
        head.concat(tail)
    }
}

/// Turns the first character of `s` into uppercase and leaves the rest as
/// it is.
pub fn capitalize_first_letter(s: &str) -> (capital: String)
    ensures
        capital@ == capitalized(s@),
{
    if s.unicode_len() == 0 {
        String::new()
    } else {
        let first = s.get_char(0);
        replace_head(to_uppercase(first), s)
    }
}

/// Whether two strings hold the same characters.
pub fn same_text(a: &str, b: &str) -> (same: bool)
    ensures
        same == (a@ == b@),
{
    let a = a.to_owned();
    let b = b.to_owned();
    a == b
}

} // verus!
