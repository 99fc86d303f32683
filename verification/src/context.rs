//! The records and identities each operation works on.
//!
//! A context holds, as plain values, what the host hands an operation: the
//! records it may read or change, the slot of a record it is to create, and
//! the identities that take part. A slot is `None` while no record lives at
//! its address.

use crate::identity::Identity;
use crate::records::{Certificate, Platform, Property};
use vstd::prelude::*;

verus! {

/// What creating the platform registry works on.
#[derive(Debug, PartialEq, Eq)]
pub struct InitializePlatform {
    /// The slot of the registry.
    pub platform: Option<Platform>,
    /// The signer, who becomes the authority.
    pub authority: Identity,
}

/// What authorizing an issuer works on.
#[derive(Debug, PartialEq, Eq)]
pub struct AddIssuer {
    pub platform: Platform,
    /// The signer.
    pub authority: Identity,
}

/// What issuing a credential works on.
#[derive(Debug, PartialEq, Eq)]
pub struct MintCertificate {
    pub platform: Platform,
    /// The slot of the credential, at the address derived from `mint`.
    pub certificate: Option<Certificate>,
    /// The identity of the asset minted for this credential.
    pub mint: Identity,
    /// The signer.
    pub issuer: Identity,
    /// Who receives the credential.
    pub student: Identity,
    /// The host's clock, in seconds since the Unix epoch.
    pub unix_timestamp: i64,
}

/// What registering a property works on.
#[derive(Debug, PartialEq, Eq)]
pub struct InitializeProperty {
    pub platform: Platform,
    /// The slot of the property, at the address derived from `mint`.
    pub property: Option<Property>,
    /// The identity of the share class of the property.
    pub mint: Identity,
    /// The signer.
    pub authority: Identity,
}

/// What acquiring shares of a property works on.
#[derive(Debug, PartialEq, Eq)]
pub struct BuyPropertyTokens {
    pub platform: Platform,
    pub property: Property,
    /// The signer, who receives the shares.
    pub buyer: Identity,
}

/// What claiming the yield of a property works on.
#[derive(Debug, PartialEq, Eq)]
pub struct ClaimRent {
    pub property: Property,
    /// The liquid balance of the platform.
    pub platform_lamports: u64,
    /// The liquid balance of the claimant.
    pub user_lamports: u64,
    /// How many shares of the property the claimant holds.
    pub user_token_balance: u64,
}

} // verus!
