use vstd::prelude::*;

use crate::numeric::{
    bounded_value, decimal_digits, lemma_decimal_round_trip, lemma_digits_without, parse_bounded,
};
use crate::protocol::VERSION;
use crate::text::{lemma_split_three, split, split_on};

verus! {

pub open spec fn u32_max() -> nat {
    u32::MAX as nat
}

/// The major and minor numbers of a `major.minor.patch` version text: exactly three
/// pieces between dots, each an unsigned 32-bit number. `None` for any other text.
pub open spec fn version_numbers(v: Seq<char>) -> Option<(nat, nat)> {
    let parts = split_on(v, '.');
    if parts.len() == 3 && bounded_value(parts[0], u32_max()) is Some && bounded_value(
        parts[1],
        u32_max(),
    ) is Some && bounded_value(parts[2], u32_max()) is Some {
        Some((bounded_value(parts[0], u32_max())->0, bounded_value(parts[1], u32_max())->0))
    } else {
        None
    }
}

/// Two versions can talk when both are well formed and agree on major and minor.
pub open spec fn versions_compatible(a: Seq<char>, b: Seq<char>) -> bool {
    version_numbers(a) is Some && version_numbers(b) is Some && version_numbers(a)->0
        == version_numbers(b)->0
}

/// The version text `major.minor.patch` in shortest decimal.
pub open spec fn version_text(major: nat, minor: nat, patch: nat) -> Seq<char> {
    decimal_digits(major).push('.') + decimal_digits(minor).push('.') + decimal_digits(patch)
}

/// The major and minor numbers of a version text.
pub fn parse_version(v: &str) -> (r: Option<(u32, u32)>)
    ensures
        match version_numbers(v@) {
            Some((major, minor)) => r == Some((major as u32, minor as u32)),
            None => r is None,
        },
{
    let parts = split(v, '.');
    proof {
        assert(parts@.len() == split_on(v@, '.').len());
    }
    if parts.len() != 3 {
        return None;
    }
    proof {
        assert(parts@[0]@ == split_on(v@, '.')[0]);
        assert(parts@[1]@ == split_on(v@, '.')[1]);
        assert(parts@[2]@ == split_on(v@, '.')[2]);
    }
    let major = parse_bounded(parts[0].as_str(), u32::MAX as u64);
    let minor = parse_bounded(parts[1].as_str(), u32::MAX as u64);
    let patch = parse_bounded(parts[2].as_str(), u32::MAX as u64);
    match (major, minor, patch) {
        (Some(a), Some(b), Some(_)) => Some((a as u32, b as u32)),
        _ => None,
    }
}

/// Whether two version texts agree on major and minor, both being well formed.
pub fn same_protocol(a: &str, b: &str) -> (r: bool)
    ensures
        r == versions_compatible(a@, b@),
{
    match (parse_version(a), parse_version(b)) {
        (Some((a_major, a_minor)), Some((b_major, b_minor))) => a_major == b_major && a_minor
            == b_minor,
        _ => false,
    }
}

/// Whether a peer speaking `incoming_version` speaks this library's protocol.
pub fn check_version(incoming_version: &str) -> (r: bool)
    ensures
        r == versions_compatible(incoming_version@, VERSION@),
{
    same_protocol(incoming_version, VERSION)
}

/// A version written out from numbers reads back as those numbers.
pub proof fn lemma_version_text_numbers(major: nat, minor: nat, patch: nat)
    requires
        major <= u32::MAX,
        minor <= u32::MAX,
        patch <= u32::MAX,
    ensures
        version_numbers(version_text(major, minor, patch)) == Some((major, minor)),
{
    lemma_decimal_round_trip(major);
    lemma_decimal_round_trip(minor);
    lemma_decimal_round_trip(patch);
    lemma_digits_without(decimal_digits(major), '.');
    lemma_digits_without(decimal_digits(minor), '.');
    lemma_digits_without(decimal_digits(patch), '.');
    lemma_split_three(decimal_digits(major), decimal_digits(minor), decimal_digits(patch), '.');
}

/// The version of this library is well formed.
pub proof fn lemma_own_version()
    ensures
        version_numbers(VERSION@) is Some,
{
    reveal_strlit("0.1.0");
    lemma_version_text_numbers(0, 1, 0);
    assert(decimal_digits(0) =~= seq!['0']);
    assert(decimal_digits(1) =~= seq!['1']);
    assert(VERSION@ =~= version_text(0, 1, 0));
}

/// Versions that differ only in the patch number are compatible; versions that differ in
/// major or minor are not.
pub proof fn lemma_patch_ignored(
    major1: nat,
    minor1: nat,
    patch1: nat,
    major2: nat,
    minor2: nat,
    patch2: nat,
)
    requires
        major1 <= u32::MAX,
        minor1 <= u32::MAX,
        patch1 <= u32::MAX,
        major2 <= u32::MAX,
        minor2 <= u32::MAX,
        patch2 <= u32::MAX,
    ensures
        versions_compatible(version_text(major1, minor1, patch1), version_text(major2, minor2, patch2))
            <==> (major1 == major2 && minor1 == minor2),
{
    lemma_version_text_numbers(major1, minor1, patch1);
    lemma_version_text_numbers(major2, minor2, patch2);
}

} // verus!
