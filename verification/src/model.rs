//! The ledger as a state machine over mathematical values: what each call
//! does to the stored records, and what a sequence of calls adds up to.

use crate::error::PlatformError;
use crate::identity::Identity;
use crate::operations::{
    add_issuer_refusal, buy_property_tokens_refusal, claim_rent_refusal,
    initialize_property_refusal, mint_certificate_refusal, rent_share,
};
use crate::records::{CertificateView, PlatformView, PropertyView};
use vstd::prelude::*;

verus! {

/// Everything the ledger stores, as a mathematical value.
#[verifier::ext_equal]
pub struct LedgerView {
    /// The platform registry, once it has been created.
    pub platform: Option<PlatformView>,
    /// The credentials, each under the identity of its asset.
    pub certificates: Map<Identity, CertificateView>,
    /// The properties, each under the identity of its share class.
    pub properties: Map<Identity, PropertyView>,
    /// The liquid balance of the platform.
    pub platform_lamports: nat,
}

/// One call to the ledger, with its arguments.
pub enum Operation {
    InitPlatform { authority: Identity },
    AddIssuer { caller: Identity, issuer: Identity },
    IssueCredential {
        issuer: Identity,
        student: Identity,
        asset: Identity,
        student_name: Seq<char>,
        course_name: Seq<char>,
        issuer_name: Seq<char>,
        now: int,
    },
    RegisterProperty {
        caller: Identity,
        asset: Identity,
        name: Seq<char>,
        total_value: nat,
        total_tokens: nat,
        metadata_uri: Seq<char>,
    },
    AcquireShares { buyer: Identity, asset: Identity, quantity: nat },
    ClaimYield { asset: Identity, share_balance: nat, claimant_lamports: nat },
}

impl LedgerView {
    /// The ledger before anything has happened, holding `platform_lamports`.
    pub open spec fn empty(platform_lamports: nat) -> LedgerView {
        LedgerView {
            platform: None,
            certificates: Map::empty(),
            properties: Map::empty(),
            platform_lamports,
        }
    }

    /// What `op` does: the ledger it leaves behind, or why it is refused.
    ///
    /// Every call but the creation of the registry needs the registry, and a
    /// call on a property needs the property; without them it is refused as
    /// `RecordNotFound`. After that the conditions of the operation itself
    /// decide.
    pub open spec fn apply(self, op: Operation) -> Result<LedgerView, PlatformError> {
        match op {
            Operation::InitPlatform { authority } => match self.platform {
                Some(_) => Err(PlatformError::DuplicateRecord),
                None => Ok(LedgerView { platform: Some(PlatformView::fresh(authority)), ..self }),
            },
            Operation::AddIssuer { caller, issuer } => match self.platform {
                None => Err(PlatformError::RecordNotFound),
                Some(platform) => match add_issuer_refusal(platform, caller, issuer) {
                    Some(refusal) => Err(refusal),
                    None => Ok(
                        LedgerView { platform: Some(platform.with_issuer(issuer)), ..self },
                    ),
                },
            },
            Operation::IssueCredential {
                issuer,
                student,
                asset,
                student_name,
                course_name,
                issuer_name,
                now,
            } => match self.platform {
                None => Err(PlatformError::RecordNotFound),
                Some(platform) => match mint_certificate_refusal(
                    platform,
                    self.certificates.dom().contains(asset),
                    issuer,
                    student_name,
                    course_name,
                    issuer_name,
                ) {
                    Some(refusal) => Err(refusal),
                    None => Ok(
                        LedgerView {
                            platform: Some(platform.with_certificate_counted()),
                            certificates: self.certificates.insert(
                                asset,
                                CertificateView {
                                    student,
                                    issuer,
                                    student_name,
                                    course_name,
                                    issuer_name,
                                    mint_time: now,
                                },
                            ),
                            ..self
                        },
                    ),
                },
            },
            Operation::RegisterProperty {
                caller,
                asset,
                name,
                total_value,
                total_tokens,
                metadata_uri,
            } => match self.platform {
                None => Err(PlatformError::RecordNotFound),
                Some(platform) => match initialize_property_refusal(
                    platform,
                    self.properties.dom().contains(asset),
                    caller,
                    name,
                    metadata_uri,
                ) {
                    Some(refusal) => Err(refusal),
                    None => Ok(
                        LedgerView {
                            platform: Some(platform.with_property_counted()),
                            properties: self.properties.insert(
                                asset,
                                PropertyView {
                                    name,
                                    total_value,
                                    total_tokens,
                                    tokens_sold: 0,
                                    metadata_uri,
                                    mint: asset,
                                },
                            ),
                            ..self
                        },
                    ),
                },
            },
            Operation::AcquireShares { buyer, asset, quantity } => {
                if self.platform is None || !self.properties.dom().contains(asset) {
                    Err(PlatformError::RecordNotFound)
                } else {
                    match buy_property_tokens_refusal(self.properties[asset], quantity) {
                        Some(refusal) => Err(refusal),
                        None => Ok(
                            LedgerView {
                                properties: self.properties.insert(
                                    asset,
                                    self.properties[asset].with_sold(quantity),
                                ),
                                ..self
                            },
                        ),
                    }
                }
            },
            Operation::ClaimYield { asset, share_balance, claimant_lamports } => {
                if self.platform is None || !self.properties.dom().contains(asset) {
                    Err(PlatformError::RecordNotFound)
                } else {
                    let property = self.properties[asset];
                    match claim_rent_refusal(
                        property,
                        share_balance,
                        self.platform_lamports,
                        claimant_lamports,
                    ) {
                        Some(refusal) => Err(refusal),
                        None => Ok(
                            LedgerView {
                                platform_lamports: (self.platform_lamports - rent_share(
                                    property.total_value,
                                    share_balance,
                                    property.total_tokens,
                                )) as nat,
                                ..self
                            },
                        ),
                    }
                }
            },
        }
    }

    /// The ledger after `op`: changed as `op` asks where it is accepted, and
    /// untouched where it is refused.
    pub open spec fn after(self, op: Operation) -> LedgerView {
        match self.apply(op) {
            Ok(next) => next,
            Err(_) => self,
        }
    }

    /// The ledger after the calls `ops`, made one after the other.
    pub open spec fn after_all(self, ops: Seq<Operation>) -> LedgerView
        decreases ops.len(),
    {
        if ops.len() == 0 {
            self
        } else {
            self.after(ops.first()).after_all(ops.drop_first())
        }
    }

    /// Every property is stored under the identity of its own share class.
    pub open spec fn properties_keyed_by_asset(self) -> bool {
        forall|asset: Identity| #[trigger]
            self.properties.dom().contains(asset) ==> self.properties[asset].mint == asset
    }

    /// No property has sold more shares than it has.
    pub open spec fn supply_respected(self) -> bool {
        forall|asset: Identity| #[trigger]
            self.properties.dom().contains(asset) ==> self.properties[asset].tokens_sold
                <= self.properties[asset].total_tokens
    }
}

} // verus!
