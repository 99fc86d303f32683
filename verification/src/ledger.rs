//! An in-memory ledger: the record store together with the operations that
//! run on it, each as one atomic call.
//!
//! A call looks up the records it needs, hands them to the operation, and
//! stores what the operation leaves behind only where the operation accepted
//! the call. What an operation asks of the asset and metadata subsystems is
//! returned to the caller.

use crate::context::{
    AddIssuer, BuyPropertyTokens, ClaimRent, InitializePlatform, InitializeProperty,
    MintCertificate,
};
use crate::effects::{CertificateIssuance, MintOrder, MintOrderView};
use crate::error::PlatformError;
use crate::identity::Identity;
use crate::model::{LedgerView, Operation};
use crate::operations::{
    add_issuer, buy_property_tokens, certificate_issuance, claim_rent, initialize_platform,
    initialize_property, mint_certificate, rent_share,
};
use crate::records::{Certificate, Platform, Property};
use crate::table::Table;
use vstd::prelude::*;

verus! {

/// The platform's records and its liquid balance.
pub struct Ledger {
    platform: Option<Platform>,
    certificates: Table<Certificate>,
    properties: Table<Property>,
    platform_lamports: u64,
}

impl View for Ledger {
    type V = LedgerView;

    closed spec fn view(&self) -> LedgerView {
        LedgerView {
            platform: match self.platform {
                Some(platform) => Some(platform@),
                None => None,
            },
            certificates: self.certificates@,
            properties: self.properties@,
            platform_lamports: self.platform_lamports as nat,
        }
    }
}

impl Ledger {
    /// The tables of this ledger are in order, and every property is stored
    /// under the identity of its own share class.
    pub closed spec fn well_formed(&self) -> bool {
        &&& self.certificates.well_formed()
        &&& self.properties.well_formed()
        &&& self@.properties_keyed_by_asset()
    }

    /// A ledger without any record, whose platform holds `platform_lamports`.
    pub fn new(platform_lamports: u64) -> (ledger: Ledger)
        ensures
            ledger.well_formed(),
            ledger@ == LedgerView::empty(platform_lamports as nat),
    {
        Ledger {
            platform: None,
            certificates: Table::new(),
            properties: Table::new(),
            platform_lamports,
        }
    }

    /// The platform registry, once it has been created.
    pub fn platform(&self) -> (found: Option<&Platform>)
        ensures
            match found {
                Some(platform) => self@.platform == Some(platform@),
                None => self@.platform is None,
            },
    {
        match &self.platform {
            Some(platform) => Some(platform),
            None => None,
        }
    }

    /// The credential of `asset`, if one has been issued.
    pub fn certificate(&self, asset: &Identity) -> (found: Option<&Certificate>)
        requires
            self.well_formed(),
        ensures
            match found {
                Some(certificate) => {
                    &&& self@.certificates.dom().contains(*asset)
                    &&& self@.certificates[*asset] == certificate@
                },
                None => !self@.certificates.dom().contains(*asset),
            },
    {
        self.certificates.get(asset)
    }

    /// The property whose share class is `asset`, if one has been registered.
    pub fn property(&self, asset: &Identity) -> (found: Option<&Property>)
        requires
            self.well_formed(),
        ensures
            match found {
                Some(property) => {
                    &&& self@.properties.dom().contains(*asset)
                    &&& self@.properties[*asset] == property@
                },
                None => !self@.properties.dom().contains(*asset),
            },
    {
        self.properties.get(asset)
    }

    /// The liquid balance of the platform.
    pub fn platform_lamports(&self) -> (balance: u64)
        ensures
            balance == self@.platform_lamports,
    {
        self.platform_lamports
    }

    fn registry(&self) -> (copy: Option<Platform>)
        ensures
            match copy {
                Some(platform) => self@.platform == Some(platform@),
                None => self@.platform is None,
            },
    {
        match &self.platform {
            Some(platform) => Some(platform.clone()),
            None => None,
        }
    }

    /// Creates the platform registry, with `authority` as its owner.
    pub fn init_platform(&mut self, authority: Identity) -> (result: Result<(), PlatformError>)
        requires
            old(self).well_formed(),
        ensures
            final(self).well_formed(),
            final(self)@ == old(self)@.after(Operation::InitPlatform { authority }),
            match old(self)@.apply(Operation::InitPlatform { authority }) {
                Ok(_) => result is Ok,
                Err(refusal) => result matches Err(error) && error == refusal,
            },
    {
        let mut ctx = InitializePlatform { platform: self.registry(), authority };
        match initialize_platform(&mut ctx) {
            Ok(()) => {
                self.platform = ctx.platform;
                Ok(())
            },
            Err(error) => Err(error),
        }
    }

    /// Puts `issuer` on the allow-list, on behalf of `caller`.
    pub fn add_issuer(&mut self, caller: Identity, issuer: Identity) -> (result: Result<
        (),
        PlatformError,
    >)
        requires
            old(self).well_formed(),
        ensures
            final(self).well_formed(),
            final(self)@ == old(self)@.after(Operation::AddIssuer { caller, issuer }),
            match old(self)@.apply(Operation::AddIssuer { caller, issuer }) {
                Ok(_) => result is Ok,
                Err(refusal) => result matches Err(error) && error == refusal,
            },
    {
        let platform = match self.registry() {
            Some(platform) => platform,
            None => {
                return Err(PlatformError::RecordNotFound);
            },
        };
        let mut ctx = AddIssuer { platform, authority: caller };
        match add_issuer(&mut ctx, issuer) {
            Ok(()) => {
                self.platform = Some(ctx.platform);
                Ok(())
            },
            Err(error) => Err(error),
        }
    }

    /// Issues the credential of `asset` to `student`, vouched for by `issuer`
    /// at the time `now`, and returns what to ask of the asset and metadata
    /// subsystems.
    pub fn issue_credential(
        &mut self,
        issuer: Identity,
        student: Identity,
        asset: Identity,
        student_name: String,
        course_name: String,
        issuer_name: String,
        metadata_uri: String,
        now: i64,
    ) -> (result: Result<CertificateIssuance, PlatformError>)
        requires
            old(self).well_formed(),
        ensures
            final(self).well_formed(),
            final(self)@ == old(self)@.after(
                (Operation::IssueCredential {
                    issuer,
                    student,
                    asset,
                    student_name: student_name@,
                    course_name: course_name@,
                    issuer_name: issuer_name@,
                    now: now as int,
                }),
            ),
            match old(self)@.apply(
                (Operation::IssueCredential {
                    issuer,
                    student,
                    asset,
                    student_name: student_name@,
                    course_name: course_name@,
                    issuer_name: issuer_name@,
                    now: now as int,
                }),
            ) {
                Ok(_) => {
                    &&& result matches Ok(issuance)
                    &&& issuance@ == certificate_issuance(
                        old(self)@.platform.unwrap(),
                        asset,
                        issuer,
                        student,
                        course_name@,
                        metadata_uri@,
                    )
                },
                Err(refusal) => result matches Err(error) && error == refusal,
            },
    {
        let platform = match self.registry() {
            Some(platform) => platform,
            None => {
                return Err(PlatformError::RecordNotFound);
            },
        };
        let certificate = match self.certificates.get(&asset) {
            Some(certificate) => Some(certificate.clone()),
            None => None,
        };
        let mut ctx = MintCertificate {
            platform,
            certificate,
            mint: asset,
            issuer,
            student,
            unix_timestamp: now,
        };
        let issuance = match mint_certificate(
            &mut ctx,
            student_name,
            course_name,
            issuer_name,
            metadata_uri,
        ) {
            Ok(issuance) => issuance,
            Err(error) => {
                return Err(error);
            },
        };
        if let Some(certificate) = ctx.certificate {
            let stored = self.certificates.create(asset, certificate);
            assert(stored is Ok);
        }
        self.platform = Some(ctx.platform);
        Ok(issuance)
    }

    /// Registers the property whose share class is `asset`, on behalf of
    /// `caller`.
    pub fn register_property(
        &mut self,
        caller: Identity,
        asset: Identity,
        name: String,
        total_value: u64,
        total_tokens: u64,
        metadata_uri: String,
    ) -> (result: Result<(), PlatformError>)
        requires
            old(self).well_formed(),
        ensures
            final(self).well_formed(),
            final(self)@ == old(self)@.after(
                (Operation::RegisterProperty {
                    caller,
                    asset,
                    name: name@,
                    total_value: total_value as nat,
                    total_tokens: total_tokens as nat,
                    metadata_uri: metadata_uri@,
                }),
            ),
            match old(self)@.apply(
                (Operation::RegisterProperty {
                    caller,
                    asset,
                    name: name@,
                    total_value: total_value as nat,
                    total_tokens: total_tokens as nat,
                    metadata_uri: metadata_uri@,
                }),
            ) {
                Ok(_) => result is Ok,
                Err(refusal) => result matches Err(error) && error == refusal,
            },
    {
        let platform = match self.registry() {
            Some(platform) => platform,
            None => {
                return Err(PlatformError::RecordNotFound);
            },
        };
        let property = match self.properties.get(&asset) {
            Some(property) => Some(property.clone()),
            None => None,
        };
        let mut ctx = InitializeProperty { platform, property, mint: asset, authority: caller };
        match initialize_property(&mut ctx, name, total_value, total_tokens, metadata_uri) {
            Ok(()) => {},
            Err(error) => {
                return Err(error);
            },
        }
        if let Some(property) = ctx.property {
            let stored = self.properties.create(asset, property);
            assert(stored is Ok);
        }
        self.platform = Some(ctx.platform);
        Ok(())
    }

    /// Acquires `quantity` shares of the property of `asset` for `buyer`, and
    /// returns the mint request for them.
    pub fn acquire_shares(&mut self, buyer: Identity, asset: Identity, quantity: u64) -> (result:
        Result<MintOrder, PlatformError>)
        requires
            old(self).well_formed(),
        ensures
            final(self).well_formed(),
            final(self)@ == old(self)@.after(
                (Operation::AcquireShares { buyer, asset, quantity: quantity as nat }),
            ),
            match old(self)@.apply(
                (Operation::AcquireShares { buyer, asset, quantity: quantity as nat }),
            ) {
                Ok(_) => {
                    &&& result matches Ok(order)
                    &&& order@ == (MintOrderView {
                        asset,
                        recipient: buyer,
                        amount: quantity as nat,
                        authority: old(self)@.platform.unwrap().authority,
                    })
                },
                Err(refusal) => result matches Err(error) && error == refusal,
            },
    {
        let platform = match self.registry() {
            Some(platform) => platform,
            None => {
                return Err(PlatformError::RecordNotFound);
            },
        };
        let property = match self.properties.get(&asset) {
            Some(property) => property.clone(),
            None => {
                return Err(PlatformError::RecordNotFound);
            },
        };
        let mut ctx = BuyPropertyTokens { platform, property, buyer };
        let order = match buy_property_tokens(&mut ctx, quantity) {
            Ok(order) => order,
            Err(error) => {
                return Err(error);
            },
        };
        let stored = self.properties.update(asset, ctx.property);
        assert(stored is Ok);
        Ok(order)
    }

    /// Pays the yield of the property of `asset` owed to a claimant who holds
    /// `share_balance` of its shares and `claimant_lamports` in liquid
    /// balance, and returns the amount paid.
    pub fn claim_yield(&mut self, asset: Identity, share_balance: u64, claimant_lamports: u64) -> (result:
        Result<u64, PlatformError>)
        requires
            old(self).well_formed(),
        ensures
            final(self).well_formed(),
            final(self)@ == old(self)@.after(
                (Operation::ClaimYield {
                    asset,
                    share_balance: share_balance as nat,
                    claimant_lamports: claimant_lamports as nat,
                }),
            ),
            match old(self)@.apply(
                (Operation::ClaimYield {
                    asset,
                    share_balance: share_balance as nat,
                    claimant_lamports: claimant_lamports as nat,
                }),
            ) {
                Ok(_) => {
                    &&& result matches Ok(paid)
                    &&& paid == rent_share(
                        old(self)@.properties[asset].total_value,
                        share_balance as nat,
                        old(self)@.properties[asset].total_tokens,
                    )
                    &&& claimant_lamports + paid <= u64::MAX
                },
                Err(refusal) => result matches Err(error) && error == refusal,
            },
    {
        if self.platform.is_none() {
            return Err(PlatformError::RecordNotFound);
        }
        let property = match self.properties.get(&asset) {
            Some(property) => property.clone(),
            None => {
                return Err(PlatformError::RecordNotFound);
            },
        };
        let mut ctx = ClaimRent {
            property,
            platform_lamports: self.platform_lamports,
            user_lamports: claimant_lamports,
            user_token_balance: share_balance,
        };
        match claim_rent(&mut ctx) {
            Ok(paid) => {
                self.platform_lamports = ctx.platform_lamports;
                Ok(paid)
            },
            Err(error) => Err(error),
        }
    }
}

} // verus!
