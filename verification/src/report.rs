//! The text that names a target.

use vstd::prelude::*;
use vstd::string::StringExecFns;
use vstd::utf8::encode_utf8;
use vstd::utf8::valid_utf8;

verus! {

/// The name of a target: its architecture, one hyphen, its operating system.
pub open spec fn target_name(arch: Seq<char>, os: Seq<char>) -> Seq<char> {
    arch + seq!['-'] + os
}

/// Builds the name of the target with architecture `arch` and operating
/// system `os`. The text is freshly allocated and owned by the caller alone.
pub fn arch_os(arch: &str, os: &str) -> (text: String)
    ensures
        text@ == target_name(arch@, os@),
        valid_utf8(encode_utf8(text@)),
{
    let mut text = String::from_str(arch);
    text.append("-");
    text.append(os);
    proof {
        reveal_strlit("-");
        assert("-"@ =~= seq!['-']);
        vstd::utf8::encode_utf8_valid_utf8(text@);
    }
    text
}

} // verus!
