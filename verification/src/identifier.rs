//! Platform identifiers and the rule that tells the mobile ones apart.
//!
//! An identifier is the label by which the host names its operating system
//! family. It is modelled as the sequence of its characters, and the rule is
//! an exact, case-sensitive match against the two recognized labels.

use vstd::prelude::*;
use vstd::utf8::{encode_utf8, encode_utf8_decode_utf8};

verus! {

/// The identifier of Apple's mobile operating system.
pub const IOS: &'static str = "ios";

/// The identifier of Android.
pub const ANDROID: &'static str = "android";

/// A platform identifier names a mobile operating system exactly when it is,
/// character for character, one of the two recognized labels. Everything
/// else, the empty identifier and labels that differ only in case included,
/// is not mobile.
pub open spec fn is_mobile_identifier(identifier: Seq<char>) -> bool {
    identifier == IOS@ || identifier == ANDROID@
}

/// Whether `left` and `right` hold the same characters.
fn same_text(left: &str, right: &str) -> (same: bool)
    ensures
        same == (left@ == right@),
{
    let left_bytes = left.as_bytes();
    let right_bytes = right.as_bytes();
    if left_bytes.len() != right_bytes.len() {
        return false;
    }
    let mut at: usize = 0;
    while at < left_bytes.len()
        invariant
            left_bytes@ == encode_utf8(left@),
            right_bytes@ == encode_utf8(right@),
            left_bytes@.len() == right_bytes@.len(),
            at <= left_bytes@.len(),
            forall|k: int| 0 <= k < at ==> left_bytes@[k] == right_bytes@[k],
        decreases left_bytes@.len() - at,
    {
        if left_bytes[at] != right_bytes[at] {
            return false;
        }
        at += 1;
    }
    proof {
        assert(left_bytes@ =~= right_bytes@);
        // Decoding recovers a text from its encoding, so two texts with the
        // same encoding are the same text.
        encode_utf8_decode_utf8(left@);
        encode_utf8_decode_utf8(right@);
    }
    true
}

/// Classifies the platform that the host names by `platform`: `true` for a
/// mobile operating system, `false` for any other identifier. The caller
/// supplies the identifier, so that the answer does not depend on where this
/// code runs.
pub fn is_mobile_platform(platform: &str) -> (mobile: bool)
    ensures
        mobile == is_mobile_identifier(platform@),
{
    same_text(platform, IOS) || same_text(platform, ANDROID)
}

/// The rule spelled out: the mobile identifiers are the three characters
/// `i`, `o`, `s` and the seven characters `a`, `n`, `d`, `r`, `o`, `i`, `d`,
/// all in lower case, and no other sequence of characters is mobile.
pub proof fn lemma_mobile_identifiers_spelled_out(identifier: Seq<char>)
    ensures
        is_mobile_identifier(identifier) <==> (identifier == seq!['i', 'o', 's'] || identifier
            == seq!['a', 'n', 'd', 'r', 'o', 'i', 'd']),
{
    reveal_strlit("ios");
    reveal_strlit("android");
    assert(IOS@ =~= seq!['i', 'o', 's']);
    assert(ANDROID@ =~= seq!['a', 'n', 'd', 'r', 'o', 'i', 'd']);
}

/// Classification depends on the characters of an identifier and on nothing
/// else: two identifiers that read the same are classified alike, wherever
/// and whenever they were obtained.
pub proof fn lemma_classification_is_repeatable(first: &str, second: &str)
    requires
        first@ == second@,
    ensures
        is_mobile_identifier(first@) == is_mobile_identifier(second@),
{
}

} // verus!
