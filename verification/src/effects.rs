//! What an operation asks of the asset and metadata subsystems.
//!
//! An operation never mints or attaches metadata itself. It returns the
//! request, and whoever runs the operation carries the request out within the
//! same atomic unit.

use crate::identity::Identity;
use crate::records::Platform;
use vstd::prelude::*;
use vstd::string::StringExecFns;

verus! {

/// Share of the proceeds, in percent, given to the only creator of a credential.
pub const SOLE_CREATOR_SHARE: u8 = 100;

/// The capability to mint under a platform registry.
///
/// Only a registry hands one out, so a bare identity can never stand where a
/// minting authority is asked for. It cannot be copied: each one authorizes
/// the one request it travels with.
#[derive(Debug, PartialEq, Eq)]
pub struct MintAuthority {
    platform_authority: Identity,
}

impl View for MintAuthority {
    type V = Identity;

    /// The authority of the registry that handed the capability out.
    closed spec fn view(&self) -> Identity {
        self.platform_authority
    }
}

impl MintAuthority {
    /// The authority of the registry that handed this capability out.
    pub fn platform_authority(&self) -> (authority: Identity)
        ensures
            authority == self@,
    {
        self.platform_authority
    }
}

impl Platform {
    /// The minting capability of this registry.
    pub fn mint_authority(&self) -> (capability: MintAuthority)
        ensures
            capability@ == self.authority,
    {
        MintAuthority { platform_authority: self.authority }
    }
}

/// A mint request as a mathematical value.
pub struct MintOrderView {
    pub asset: Identity,
    pub recipient: Identity,
    pub amount: nat,
    pub authority: Identity,
}

/// A request to mint `amount` units of `asset` to the holding account of
/// `recipient`, under the capability of a platform registry.
#[derive(Debug, PartialEq, Eq)]
pub struct MintOrder {
    pub asset: Identity,
    pub recipient: Identity,
    pub amount: u64,
    pub authority: MintAuthority,
}

impl View for MintOrder {
    type V = MintOrderView;

    open spec fn view(&self) -> MintOrderView {
        MintOrderView {
            asset: self.asset,
            recipient: self.recipient,
            amount: self.amount as nat,
            authority: self.authority@,
        }
    }
}

/// Someone credited in the metadata of an asset.
#[derive(Clone, Copy, Debug, PartialEq, Eq)]
pub struct Creator {
    pub address: Identity,
    pub verified: bool,
    pub share: u8,
}

/// A metadata request as a mathematical value.
pub struct MetadataRequestView {
    pub asset: Identity,
    pub name: Seq<char>,
    pub symbol: Seq<char>,
    pub uri: Seq<char>,
    pub seller_fee_basis_points: nat,
    pub creators: Seq<Creator>,
    pub collection: Option<Identity>,
    pub is_mutable: bool,
    pub update_authority_is_signer: bool,
}

/// A request to attach descriptive metadata to `asset`.
#[derive(Debug, PartialEq, Eq)]
pub struct MetadataRequest {
    pub asset: Identity,
    pub name: String,
    pub symbol: String,
    pub uri: String,
    pub seller_fee_basis_points: u16,
    pub creators: Vec<Creator>,
    pub collection: Option<Identity>,
    pub is_mutable: bool,
    pub update_authority_is_signer: bool,
}

impl View for MetadataRequest {
    type V = MetadataRequestView;

    open spec fn view(&self) -> MetadataRequestView {
        MetadataRequestView {
            asset: self.asset,
            name: self.name@,
            symbol: self.symbol@,
            uri: self.uri@,
            seller_fee_basis_points: self.seller_fee_basis_points as nat,
            creators: self.creators@,
            collection: self.collection,
            is_mutable: self.is_mutable,
            update_authority_is_signer: self.update_authority_is_signer,
        }
    }
}

/// The metadata of a credential for `course_name` vouched for by `issuer`:
/// named after the course, tagged `EDU`, free of resale fees, crediting the
/// issuer alone, in no collection, and open to later updates.
pub open spec fn certificate_metadata(
    asset: Identity,
    issuer: Identity,
    course_name: Seq<char>,
    uri: Seq<char>,
) -> MetadataRequestView {
    MetadataRequestView {
        asset,
        name: course_name + " Certificate"@,
        symbol: "EDU"@,
        uri,
        seller_fee_basis_points: 0,
        creators: seq![Creator { address: issuer, verified: true, share: SOLE_CREATOR_SHARE }],
        collection: None,
        is_mutable: true,
        update_authority_is_signer: true,
    }
}

impl MetadataRequest {
    /// Builds the metadata request of a credential.
    pub fn for_certificate(
        asset: Identity,
        issuer: Identity,
        course_name: &String,
        uri: String,
    ) -> (request: MetadataRequest)
        ensures
            request@ == certificate_metadata(asset, issuer, course_name@, uri@),
    {
        let name = course_name.clone().concat(" Certificate");
        let mut creators: Vec<Creator> = Vec::new();
        creators.push(Creator { address: issuer, verified: true, share: SOLE_CREATOR_SHARE });
        assert(creators@ == seq![
            Creator { address: issuer, verified: true, share: SOLE_CREATOR_SHARE },
        ]);
        MetadataRequest {
            asset,
            name,
            symbol: String::from_str("EDU"),
            uri,
            seller_fee_basis_points: 0,
            creators,
            collection: None,
            is_mutable: true,
            update_authority_is_signer: true,
        }
    }
}

/// What issuing a credential asks for, as a mathematical value.
pub struct CertificateIssuanceView {
    pub mint: MintOrderView,
    pub metadata: MetadataRequestView,
}

/// What issuing a credential asks for: one unit of the new asset for the
/// student, then metadata for that asset.
#[derive(Debug, PartialEq, Eq)]
pub struct CertificateIssuance {
    pub mint: MintOrder,
    pub metadata: MetadataRequest,
}

impl View for CertificateIssuance {
    type V = CertificateIssuanceView;

    open spec fn view(&self) -> CertificateIssuanceView {
        CertificateIssuanceView { mint: self.mint@, metadata: self.metadata@ }
    }
}

} // verus!
