//! The three persistent records, their mathematical views and their invariants.

use crate::identity::Identity;
use vstd::prelude::*;

verus! {

/// Most issuers the allow-list of a platform can hold.
pub const MAX_ISSUERS: usize = 10;

/// Most bytes a name stored in a record can take.
pub const MAX_NAME_LEN: usize = 100;

/// Most bytes a metadata locator stored in a record can take.
pub const MAX_URI_LEN: usize = 200;

/// Number of bytes `text` takes when stored, which is its length in UTF-8.
pub open spec fn stored_len(text: Seq<char>) -> nat {
    vstd::utf8::encode_utf8(text).len()
}

/// Whether `text` takes at most `limit` bytes when stored.
pub fn fits(text: &String, limit: usize) -> (ok: bool)
    ensures
        ok == (stored_len(text@) <= limit),
{
    text.as_str().as_bytes().len() <= limit
}

/// The platform registry as a mathematical value.
#[verifier::ext_equal]
pub struct PlatformView {
    pub authority: Identity,
    pub total_properties: nat,
    pub total_certificates: nat,
    pub authorized_issuers: Seq<Identity>,
}

impl PlatformView {
    /// The registry as it is right after creation by `authority`.
    pub open spec fn fresh(authority: Identity) -> PlatformView {
        PlatformView {
            authority,
            total_properties: 0,
            total_certificates: 0,
            authorized_issuers: Seq::empty(),
        }
    }

    /// The allow-list is within its capacity and names nobody twice.
    pub open spec fn well_formed(self) -> bool {
        &&& self.authorized_issuers.len() <= MAX_ISSUERS
        &&& self.authorized_issuers.no_duplicates()
    }

    /// Bytes this registry takes when stored: a tag of eight bytes, the
    /// authority, the two counters, and the allow-list behind its length.
    pub open spec fn stored_size(self) -> nat {
        8 + 32 + 8 + 8 + (4 + 32 * self.authorized_issuers.len())
    }

    /// This registry with `issuer` appended to the allow-list.
    pub open spec fn with_issuer(self, issuer: Identity) -> PlatformView {
        PlatformView { authorized_issuers: self.authorized_issuers.push(issuer), ..self }
    }

    /// This registry with one more certificate counted.
    pub open spec fn with_certificate_counted(self) -> PlatformView {
        PlatformView { total_certificates: self.total_certificates + 1, ..self }
    }

    /// This registry with one more property counted.
    pub open spec fn with_property_counted(self) -> PlatformView {
        PlatformView { total_properties: self.total_properties + 1, ..self }
    }
}

/// The platform registry: the one record that holds the owner, the global
/// counters and the issuer allow-list.
#[derive(Debug, PartialEq, Eq)]
pub struct Platform {
    pub authority: Identity,
    pub total_properties: u64,
    pub total_certificates: u64,
    pub authorized_issuers: Vec<Identity>,
}

impl View for Platform {
    type V = PlatformView;

    open spec fn view(&self) -> PlatformView {
        PlatformView {
            authority: self.authority,
            total_properties: self.total_properties as nat,
            total_certificates: self.total_certificates as nat,
            authorized_issuers: self.authorized_issuers@,
        }
    }
}

impl Clone for Platform {
    fn clone(&self) -> (copy: Platform)
        ensures
            copy@ == self@,
    {
        let mut issuers: Vec<Identity> = Vec::new();
        let mut i: usize = 0;
        while i < self.authorized_issuers.len()
            invariant
                i <= self.authorized_issuers.len(),
                issuers@ == self.authorized_issuers@.subrange(0, i as int),
            decreases self.authorized_issuers.len() - i,
        {
            issuers.push(self.authorized_issuers[i]);
            i += 1;
        }
        assert(issuers@ == self.authorized_issuers@);
        Platform {
            authority: self.authority,
            total_properties: self.total_properties,
            total_certificates: self.total_certificates,
            authorized_issuers: issuers,
        }
    }
}

impl Platform {
    /// Bytes a stored registry takes at most: a tag, the authority, the two
    /// counters, and a length-prefixed list of up to ten issuers.
    pub const SIZE: usize = 8 + 32 + 8 + 8 + (4 + 32 * 10);

    /// A registry owned by `authority`, with nothing counted and nobody listed.
    pub fn new(authority: Identity) -> (platform: Platform)
        ensures
            platform@ == PlatformView::fresh(authority),
            platform@.well_formed(),
    {
        Platform {
            authority,
            total_properties: 0,
            total_certificates: 0,
            authorized_issuers: Vec::new(),
        }
    }

    /// Whether `issuer` is on the allow-list.
    pub fn is_authorized_issuer(&self, issuer: &Identity) -> (listed: bool)
        ensures
            listed == self@.authorized_issuers.contains(*issuer),
    {
        crate::identity::contains_identity(&self.authorized_issuers, issuer)
    }
}

/// A credential as a mathematical value.
#[verifier::ext_equal]
pub struct CertificateView {
    pub student: Identity,
    pub issuer: Identity,
    pub student_name: Seq<char>,
    pub course_name: Seq<char>,
    pub issuer_name: Seq<char>,
    pub mint_time: int,
}

impl CertificateView {
    /// Each name fits the room its record leaves for it.
    pub open spec fn well_formed(self) -> bool {
        &&& stored_len(self.student_name) <= MAX_NAME_LEN
        &&& stored_len(self.course_name) <= MAX_NAME_LEN
        &&& stored_len(self.issuer_name) <= MAX_NAME_LEN
    }

    /// Bytes this credential takes when stored: a tag of eight bytes, the two
    /// identities, each name behind its length, and the timestamp.
    pub open spec fn stored_size(self) -> nat {
        8 + 32 + 32 + (4 + stored_len(self.student_name)) + (4 + stored_len(self.course_name))
            + (4 + stored_len(self.issuer_name)) + 8
    }
}

/// A credential: who achieved what, who vouches for it, and when it was issued.
#[derive(Debug, PartialEq, Eq)]
pub struct Certificate {
    pub student: Identity,
    pub issuer: Identity,
    pub student_name: String,
    pub course_name: String,
    pub issuer_name: String,
    pub mint_time: i64,
}

impl View for Certificate {
    type V = CertificateView;

    open spec fn view(&self) -> CertificateView {
        CertificateView {
            student: self.student,
            issuer: self.issuer,
            student_name: self.student_name@,
            course_name: self.course_name@,
            issuer_name: self.issuer_name@,
            mint_time: self.mint_time as int,
        }
    }
}

impl Clone for Certificate {
    fn clone(&self) -> (copy: Certificate)
        ensures
            copy@ == self@,
    {
        Certificate {
            student: self.student,
            issuer: self.issuer,
            student_name: self.student_name.clone(),
            course_name: self.course_name.clone(),
            issuer_name: self.issuer_name.clone(),
            mint_time: self.mint_time,
        }
    }
}

impl Certificate {
    /// Bytes a stored credential takes at most: a tag, two identities, three
    /// length-prefixed names of up to a hundred bytes, and the timestamp.
    pub const SIZE: usize = 8 + 32 + 32 + (4 + 100) + (4 + 100) + (4 + 100) + 8;
}

/// A property as a mathematical value.
#[verifier::ext_equal]
pub struct PropertyView {
    pub name: Seq<char>,
    pub total_value: nat,
    pub total_tokens: nat,
    pub tokens_sold: nat,
    pub metadata_uri: Seq<char>,
    pub mint: Identity,
}

impl PropertyView {
    /// No more shares are sold than exist, and the texts fit their room.
    pub open spec fn well_formed(self) -> bool {
        &&& self.tokens_sold <= self.total_tokens
        &&& stored_len(self.name) <= MAX_NAME_LEN
        &&& stored_len(self.metadata_uri) <= MAX_URI_LEN
    }

    /// Bytes this property takes when stored: a tag of eight bytes, the name
    /// behind its length, the three amounts, the locator behind its length,
    /// and the asset identity.
    pub open spec fn stored_size(self) -> nat {
        8 + (4 + stored_len(self.name)) + 8 + 8 + 8 + (4 + stored_len(self.metadata_uri)) + 32
    }

    /// Shares that can still be acquired.
    pub open spec fn tokens_available(self) -> int {
        self.total_tokens - self.tokens_sold
    }

    /// This property with `amount` more shares sold.
    pub open spec fn with_sold(self, amount: nat) -> PropertyView {
        PropertyView { tokens_sold: self.tokens_sold + amount, ..self }
    }
}

/// A registered property and the state of its share sale.
#[derive(Debug, PartialEq, Eq)]
pub struct Property {
    pub name: String,
    pub total_value: u64,
    pub total_tokens: u64,
    pub tokens_sold: u64,
    pub metadata_uri: String,
    pub mint: Identity,
}

impl View for Property {
    type V = PropertyView;

    open spec fn view(&self) -> PropertyView {
        PropertyView {
            name: self.name@,
            total_value: self.total_value as nat,
            total_tokens: self.total_tokens as nat,
            tokens_sold: self.tokens_sold as nat,
            metadata_uri: self.metadata_uri@,
            mint: self.mint,
        }
    }
}

impl Clone for Property {
    fn clone(&self) -> (copy: Property)
        ensures
            copy@ == self@,
    {
        Property {
            name: self.name.clone(),
            total_value: self.total_value,
            total_tokens: self.total_tokens,
            tokens_sold: self.tokens_sold,
            metadata_uri: self.metadata_uri.clone(),
            mint: self.mint,
        }
    }
}

impl Property {
    /// Bytes a stored property takes at most: a tag, a length-prefixed name of
    /// up to a hundred bytes, three amounts, a length-prefixed locator of up to
    /// two hundred bytes, and the asset identity.
    pub const SIZE: usize = 8 + (4 + 100) + 8 + 8 + 8 + (4 + 200) + 32;
}

} // verus!
