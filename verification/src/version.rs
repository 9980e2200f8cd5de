//! Three-component versions: reading them from text, writing them back,
//! stepping them up, and their order.
//!
//! Reading is lenient and never fails. A text is cut at its dots; the first
//! three segments give the major, minor and patch number, and whatever
//! follows a third dot is ignored. A segment that is no numeral (an optional
//! `+` and one or more digits, denoting at most `u32::MAX`) gives 0, and so
//! does a segment that is missing: `1.2` reads as 1.2.0, `x.y.z` as 0.0.0 and
//! `1.2.3.4` as 1.2.3.

use crate::decimal::{
    append_decimal, component, decimal, lemma_component_of_decimal, lemma_decimal_denotes,
};
use crate::segment::{first_segment, later_segments, lemma_segment_len_is, scan_component};
use crate::text::chars_of;
use std::cmp::Ordering;
use vstd::prelude::*;
use vstd::string::*;

verus! {

/// A version: major, minor and patch number.
#[derive(Clone, Copy, Debug, PartialEq, Eq, Structural)]
pub struct Version {
    pub major: u32,
    pub minor: u32,
    pub patch: u32,
}

impl Version {
    /// The version that `text` reads as.
    pub open spec fn of_text(text: Seq<char>) -> Version {
        let second = later_segments(text);
        let third = later_segments(second);
        Version {
            major: component(first_segment(text)),
            minor: component(first_segment(second)),
            patch: component(first_segment(third)),
        }
    }

    /// The text that writes this version: the three numbers in decimal, with
    /// a dot between them.
    pub open spec fn text(self) -> Seq<char> {
        decimal(self.major as nat) + seq!['.'] + decimal(self.minor as nat) + seq!['.'] + decimal(
            self.patch as nat,
        )
    }

    /// This version with the patch number one higher.
    pub open spec fn next_patch(self) -> Version {
        Version { major: self.major, minor: self.minor, patch: (self.patch + 1) as u32 }
    }

    /// This version with the minor number one higher and the patch number 0.
    pub open spec fn next_minor(self) -> Version {
        Version { major: self.major, minor: (self.minor + 1) as u32, patch: 0 }
    }

    /// This version with the major number one higher and the other two 0.
    pub open spec fn next_major(self) -> Version {
        Version { major: (self.major + 1) as u32, minor: 0, patch: 0 }
    }

    /// The order of two versions: by major number, then minor, then patch.
    pub open spec fn order(self, other: Version) -> Ordering {
        if self.major != other.major {
            if self.major < other.major {
                Ordering::Less
            } else {
                Ordering::Greater
            }
        } else if self.minor != other.minor {
            if self.minor < other.minor {
                Ordering::Less
            } else {
                Ordering::Greater
            }
        } else if self.patch != other.patch {
            if self.patch < other.patch {
                Ordering::Less
            } else {
                Ordering::Greater
            }
        } else {
            Ordering::Equal
        }
    }

    /// Reads a version from `text`, leniently: see the module's description.
    pub fn parse(text: &str) -> (version: Version)
        ensures
            version == Version::of_text(text@),
    {
        let chars = chars_of(text);
        let len = chars.len();
        let (major, first_end) = scan_component(&chars, 0);
        let second_start = if first_end < len {
            first_end + 1
        } else {
            len
        };
        let (minor, second_end) = scan_component(&chars, second_start);
        let third_start = if second_end < len {
            second_end + 1
        } else {
            len
        };
        let (patch, _) = scan_component(&chars, third_start);
        proof {
            let second = later_segments(text@);
            assert(chars@.skip(0) =~= text@);
            assert(chars@.skip(second_start as int) =~= second);
            assert(chars@.skip(third_start as int) =~= later_segments(second));
        }
        Version { major, minor, patch }
    }

    /// Writes this version as `major.minor.patch`.
    pub fn format(&self) -> (text: String)
        ensures
            text@ == self.text(),
    {
        let mut text = String::new();
        append_decimal(&mut text, self.major);
        text.append(".");
        append_decimal(&mut text, self.minor);
        text.append(".");
        append_decimal(&mut text, self.patch);
        proof {
            reveal_strlit(".");
            assert("."@ =~= seq!['.']);
            assert(text@ =~= self.text());
        }
        text
    }

    /// The next patch version.
    pub fn increment_patch(&self) -> (next: Version)
        requires
            self.patch < u32::MAX,
        ensures
            next == self.next_patch(),
            next.major == self.major,
            next.minor == self.minor,
            next.patch == self.patch + 1,
    {
        Version { major: self.major, minor: self.minor, patch: self.patch + 1 }
    }

    /// The next minor version: the patch number starts again at 0.
    pub fn increment_minor(&self) -> (next: Version)
        requires
            self.minor < u32::MAX,
        ensures
            next == self.next_minor(),
            next.major == self.major,
            next.minor == self.minor + 1,
            next.patch == 0,
    {
        Version { major: self.major, minor: self.minor + 1, patch: 0 }
    }

    /// The next major version: the minor and patch numbers start again at 0.
    pub fn increment_major(&self) -> (next: Version)
        requires
            self.major < u32::MAX,
        ensures
            next == self.next_major(),
            next.major == self.major + 1,
            next.minor == 0,
            next.patch == 0,
    {
        Version { major: self.major + 1, minor: 0, patch: 0 }
    }

    /// Compares two versions number by number; the first pair that differs
    /// decides, and versions that agree in all three are equal.
    pub fn compare(&self, other: &Version) -> (order: Ordering)
        ensures
            order == self.order(*other),
    {
        if self.major != other.major {
            if self.major < other.major {
                Ordering::Less
            } else {
                Ordering::Greater
            }
        } else if self.minor != other.minor {
            if self.minor < other.minor {
                Ordering::Less
            } else {
                Ordering::Greater
            }
        } else if self.patch != other.patch {
            if self.patch < other.patch {
                Ordering::Less
            } else {
                Ordering::Greater
            }
        } else {
            Ordering::Equal
        }
    }
}

/// Reads `version`, steps the patch number up by one, and writes the result.
pub fn increment_patch_version(version: &str) -> (bumped: String)
    requires
        Version::of_text(version@).patch < u32::MAX,
    ensures
        bumped@ == Version::of_text(version@).next_patch().text(),
{
    Version::parse(version).increment_patch().format()
}

/// Reads `version`, steps the minor number up by one, sets the patch number
/// to 0, and writes the result.
pub fn increment_minor_version(version: &str) -> (bumped: String)
    requires
        Version::of_text(version@).minor < u32::MAX,
    ensures
        bumped@ == Version::of_text(version@).next_minor().text(),
{
    Version::parse(version).increment_minor().format()
}

/// Reads `version`, steps the major number up by one, sets the other two to
/// 0, and writes the result.
pub fn increment_major_version(version: &str) -> (bumped: String)
    requires
        Version::of_text(version@).major < u32::MAX,
    ensures
        bumped@ == Version::of_text(version@).next_major().text(),
{
    Version::parse(version).increment_major().format()
}

/// Reads both texts as versions and compares them: `Less` where the local
/// version is the older one.
pub fn compare_versions(local_version: &str, remote_version: &str) -> (order: Ordering)
    ensures
        order == Version::of_text(local_version@).order(Version::of_text(remote_version@)),
{
    let local = Version::parse(local_version);
    let remote = Version::parse(remote_version);
    local.compare(&remote)
}

/// In a text that begins with a numeral and a dot, the numeral is the first
/// segment and what follows the dot are the later ones.
proof fn lemma_segments_of_joined(n: nat, rest: Seq<char>)
    ensures
        first_segment(decimal(n) + seq!['.'] + rest) == decimal(n),
        later_segments(decimal(n) + seq!['.'] + rest) == rest,
{
    let head = decimal(n);
    let whole = head + seq!['.'] + rest;
    lemma_decimal_denotes(n);
    assert(whole.take(head.len() as int) =~= head);
    assert(whole[head.len() as int] == '.');
    lemma_segment_len_is(whole, head.len() as int);
    assert(whole.skip(head.len() as int + 1) =~= rest);
}

/// A numeral alone is its own first segment, and nothing follows it.
proof fn lemma_segments_of_numeral(n: nat)
    ensures
        first_segment(decimal(n)) == decimal(n),
        later_segments(decimal(n)) == Seq::<char>::empty(),
{
    let head = decimal(n);
    lemma_decimal_denotes(n);
    assert(head.take(head.len() as int) =~= head);
    lemma_segment_len_is(head, head.len() as int);
}

/// Writing a version and reading the text back gives the same version, so a
/// text that was written from a version is written again unchanged.
pub proof fn law_text_round_trip(v: Version)
    ensures
        Version::of_text(v.text()) == v,
        Version::of_text(v.text()).text() == v.text(),
{
    let tail = decimal(v.patch as nat);
    let middle = decimal(v.minor as nat) + seq!['.'] + tail;
    assert(v.text() =~= decimal(v.major as nat) + seq!['.'] + middle);
    lemma_segments_of_joined(v.major as nat, middle);
    lemma_segments_of_joined(v.minor as nat, tail);
    lemma_segments_of_numeral(v.patch as nat);
    lemma_component_of_decimal(v.major);
    lemma_component_of_decimal(v.minor);
    lemma_component_of_decimal(v.patch);
}

/// Reading a text and writing the version normalizes the text: doing it a
/// second time changes nothing.
pub proof fn law_normalizing_is_idempotent(text: Seq<char>)
    ensures
        Version::of_text(Version::of_text(text).text()).text() == Version::of_text(text).text(),
{
    law_text_round_trip(Version::of_text(text));
}

/// Two versions compare as equal exactly when they are the same version.
pub proof fn law_order_equal_is_same(a: Version, b: Version)
    ensures
        a.order(b) == Ordering::Equal <==> a == b,
{
}

/// The order is antisymmetric: one version is less than another exactly when
/// the other is greater than it.
pub proof fn law_order_antisymmetric(a: Version, b: Version)
    ensures
        a.order(b) == Ordering::Less <==> b.order(a) == Ordering::Greater,
        a.order(b) == Ordering::Equal <==> b.order(a) == Ordering::Equal,
{
}

/// The order is transitive.
pub proof fn law_order_transitive(a: Version, b: Version, c: Version)
    requires
        a.order(b) == Ordering::Less,
        b.order(c) == Ordering::Less,
    ensures
        a.order(c) == Ordering::Less,
{
}

/// Any two versions are in exactly one of the three relations, and the
/// relation is that of the triples (major, minor, patch) in the order of the
/// dictionary.
pub proof fn law_order_total(a: Version, b: Version)
    ensures
        a.order(b) == Ordering::Less <==> a.major < b.major || (a.major == b.major && (a.minor
            < b.minor || (a.minor == b.minor && a.patch < b.patch))),
        a.order(b) == Ordering::Greater <==> b.order(a) == Ordering::Less,
        a.order(b) == Ordering::Less || a.order(b) == Ordering::Equal || a.order(b)
            == Ordering::Greater,
{
}

/// A version is less than its next patch version.
pub proof fn law_next_patch_is_greater(v: Version)
    requires
        v.patch < u32::MAX,
    ensures
        v.order(v.next_patch()) == Ordering::Less,
{
}

/// A version is less than its next minor version.
pub proof fn law_next_minor_is_greater(v: Version)
    requires
        v.minor < u32::MAX,
    ensures
        v.order(v.next_minor()) == Ordering::Less,
{
}

/// A version is less than its next major version, whatever its minor and
/// patch numbers are.
pub proof fn law_next_major_is_greater(v: Version)
    requires
        v.major < u32::MAX,
    ensures
        v.order(v.next_major()) == Ordering::Less,
{
}

} // verus!
