//! Package identifiers and versions.

use vstd::prelude::*;
use vstd::string::StringExecFns;
use vstd::string::StringSliceAdditionalSpecFns;

verus! {

/// Whether a character may stand in a package identifier: an ASCII letter,
/// an ASCII digit, a hyphen or an underscore.
pub open spec fn is_id_char(c: char) -> bool {
    ('a' <= c && c <= 'z') || ('A' <= c && c <= 'Z') || ('0' <= c && c <= '9') || c == '-' || c
        == '_'
}

/// Whether a text is a package identifier: not empty, and made of identifier
/// characters alone, so that it can stand as one segment of a path.
pub open spec fn is_package_id(s: Seq<char>) -> bool {
    &&& s.len() > 0
    &&& forall|i: int| 0 <= i < s.len() ==> is_id_char(#[trigger] s[i])
}

/// The name of a package.
#[derive(Debug)]
pub struct PackageId {
    id: String,
}

impl View for PackageId {
    type V = Seq<char>;

    closed spec fn view(&self) -> Seq<char> {
        self.id@
    }
}

impl Clone for PackageId {
    fn clone(&self) -> (copy: Self)
        ensures
            copy@ == self@,
    {
        proof {
            use_type_invariant(self);
        }
        PackageId { id: self.id.clone() }
    }
}

fn is_id_byte(b: u8) -> (ok: bool)
    ensures
        ok == (b < 128 && is_id_char(b as char)),
{
    (97 <= b && b <= 122) || (65 <= b && b <= 90) || (48 <= b && b <= 57) || b == 45 || b == 95
}

impl PackageId {
    #[verifier::type_invariant]
    spec fn well_formed(self) -> bool {
        is_package_id(self.id@)
    }

    /// Makes an identifier of a text, if the text is one.
    pub fn new(text: &str) -> (id: Option<PackageId>)
        ensures
            id is Some <==> is_package_id(text@),
            id matches Some(p) ==> p@ == text@,
    {
        broadcast use vstd::string::is_ascii_spec_bytes;

        if !text.is_ascii() {
            assert(!is_package_id(text@)) by {
                if is_package_id(text@) {
                    assert forall|i: int| 0 <= i < text@.len() implies '\0' <= #[trigger] text@[i]
                        <= '\u{7f}' by {
                        assert(is_id_char(text@[i]));
                    }
                }
            }
            return None;
        }
        let bytes = text.as_bytes();
        assert(bytes@.len() == text@.len());
        if bytes.len() == 0 {
            return None;
        }
        let mut i: usize = 0;
        while i < bytes.len()
            invariant
                i <= bytes@.len(),
                bytes@.len() == text@.len(),
                vstd::string::is_ascii(text),
                bytes@ == text.spec_bytes(),
                forall|j: int| 0 <= j < i ==> is_id_char(#[trigger] text@[j]),
            decreases bytes@.len() - i,
        {
            let b = bytes[i];
            assert(b == text@[i as int] as u8);
            if !is_id_byte(b) {
                assert(!is_id_char(text@[i as int]));
                return None;
            }
            i += 1;
        }
        Some(PackageId { id: String::from_str(text) })
    }

    /// The identifier as text, which is always a well-formed identifier.
    pub fn as_str(&self) -> (text: &str)
        ensures
            text@ == self@,
            is_package_id(text@),
    {
        proof {
            use_type_invariant(self);
        }
        self.id.as_str()
    }

    /// Whether two identifiers name the same package.
    pub fn same(&self, other: &PackageId) -> (equal: bool)
        ensures
            equal == (self@ == other@),
    {
        self.id == other.id
    }
}

/// The character of a decimal digit.
pub open spec fn digit_char(d: nat) -> char
    recommends
        d < 10,
{
    (d + 48) as u8 as char
}

/// A number in decimal, without leading zeros.
pub open spec fn decimal(n: nat) -> Seq<char>
    decreases n,
{
    if n < 10 {
        seq![digit_char(n)]
    } else {
        decimal(n / 10).push(digit_char(n % 10))
    }
}

/// The text of a version: its three numbers in decimal, with a dot between them.
pub open spec fn version_text(v: Version) -> Seq<char> {
    decimal(v.major as nat) + seq!['.'] + decimal(v.minor as nat) + seq!['.'] + decimal(
        v.patch as nat,
    )
}

/// A version: major, minor and patch number.
#[derive(Clone, Copy, Debug, PartialEq, Eq, Structural)]
pub struct Version {
    pub major: usize,
    pub minor: usize,
    pub patch: usize,
}

/// Calls `emver::Version::new` with revision zero and renders the result with
/// its `Display` impl, which writes the three numbers in decimal with a dot
/// between them when the revision is zero.
#[verifier::external_body]
fn emver_text(v: Version) -> (text: String)
    ensures
        text@ == version_text(v),
{
    emver::Version::new(v.major, v.minor, v.patch, 0).to_string()
}

impl Version {
    /// The version with the given numbers.
    pub fn new(major: usize, minor: usize, patch: usize) -> (v: Version)
        ensures
            v == (Version { major, minor, patch }),
    {
        Version { major, minor, patch }
    }

    /// The version as text.
    pub fn to_text(&self) -> (text: String)
        ensures
            text@ == version_text(*self),
    {
        emver_text(*self)
    }
}

} // verus!
