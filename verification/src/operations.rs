//! The operations of the platform, each a single all-or-nothing step.
//!
//! Every operation decides before it changes anything: a refused operation
//! leaves its context exactly as it found it.

use crate::context::{
    AddIssuer, BuyPropertyTokens, ClaimRent, InitializePlatform, InitializeProperty,
    MintCertificate,
};
use crate::effects::{
    certificate_metadata, CertificateIssuance, CertificateIssuanceView, MetadataRequest,
    MintOrder, MintOrderView,
};
use crate::error::PlatformError;
use crate::identity::Identity;
use crate::records::{
    fits, stored_len, Certificate, CertificateView, Platform, PlatformView, Property,
    PropertyView, MAX_ISSUERS, MAX_NAME_LEN, MAX_URI_LEN,
};
use vstd::prelude::*;

verus! {

/// Why issuing a credential is refused, if it is. The conditions are tried in
/// this order: the issuer must be on the allow-list, the slot must be empty,
/// the names must fit, and the counter must have room.
pub open spec fn mint_certificate_refusal(
    platform: PlatformView,
    slot_taken: bool,
    issuer: Identity,
    student_name: Seq<char>,
    course_name: Seq<char>,
    issuer_name: Seq<char>,
) -> Option<PlatformError> {
    if !platform.authorized_issuers.contains(issuer) {
        Some(PlatformError::UnauthorizedIssuer)
    } else if slot_taken {
        Some(PlatformError::DuplicateRecord)
    } else if stored_len(student_name) > MAX_NAME_LEN || stored_len(course_name) > MAX_NAME_LEN
        || stored_len(issuer_name) > MAX_NAME_LEN {
        Some(PlatformError::TextTooLong)
    } else if platform.total_certificates >= u64::MAX {
        Some(PlatformError::ArithmeticOverflow)
    } else {
        None
    }
}

/// What a successful issuance asks for: exactly one unit of `asset` for the
/// student under the registry's capability, and the credential's metadata.
pub open spec fn certificate_issuance(
    platform: PlatformView,
    asset: Identity,
    issuer: Identity,
    student: Identity,
    course_name: Seq<char>,
    metadata_uri: Seq<char>,
) -> CertificateIssuanceView {
    CertificateIssuanceView {
        mint: MintOrderView { asset, recipient: student, amount: 1, authority: platform.authority },
        metadata: certificate_metadata(asset, issuer, course_name, metadata_uri),
    }
}

/// Issues a credential: fills the credential's slot, asks for one unit of the
/// new asset and for its metadata, and counts the certificate.
pub fn mint_certificate(
    ctx: &mut MintCertificate,
    student_name: String,
    course_name: String,
    issuer_name: String,
    metadata_uri: String,
) -> (result: Result<CertificateIssuance, PlatformError>)
    ensures
        match mint_certificate_refusal(
            old(ctx).platform@,
            old(ctx).certificate is Some,
            old(ctx).issuer,
            student_name@,
            course_name@,
            issuer_name@,
        ) {
            Some(refusal) => {
                &&& result matches Err(error)
                &&& error == refusal
                &&& *final(ctx) == *old(ctx)
            },
            None => {
                &&& result matches Ok(issuance)
                &&& issuance@ == certificate_issuance(
                    old(ctx).platform@,
                    old(ctx).mint,
                    old(ctx).issuer,
                    old(ctx).student,
                    course_name@,
                    metadata_uri@,
                )
                &&& final(ctx).platform@ == old(ctx).platform@.with_certificate_counted()
                &&& final(ctx).certificate matches Some(certificate)
                &&& certificate@ == (CertificateView {
                    student: old(ctx).student,
                    issuer: old(ctx).issuer,
                    student_name: student_name@,
                    course_name: course_name@,
                    issuer_name: issuer_name@,
                    mint_time: old(ctx).unix_timestamp as int,
                })
                &&& certificate@.well_formed()
                &&& final(ctx).mint == old(ctx).mint
                &&& final(ctx).issuer == old(ctx).issuer
                &&& final(ctx).student == old(ctx).student
                &&& final(ctx).unix_timestamp == old(ctx).unix_timestamp
            },
        },
{
    if !ctx.platform.is_authorized_issuer(&ctx.issuer) {
        return Err(PlatformError::UnauthorizedIssuer);
    }
    if ctx.certificate.is_some() {
        return Err(PlatformError::DuplicateRecord);
    }
    if !fits(&student_name, MAX_NAME_LEN) || !fits(&course_name, MAX_NAME_LEN) || !fits(
        &issuer_name,
        MAX_NAME_LEN,
    ) {
        return Err(PlatformError::TextTooLong);
    }
    let counted: u64 = match ctx.platform.total_certificates.checked_add(1) {
        Some(counted) => counted,
        None => {
            return Err(PlatformError::ArithmeticOverflow);
        },
    };
    let mint = MintOrder {
        asset: ctx.mint,
        recipient: ctx.student,
        amount: 1,
        authority: ctx.platform.mint_authority(),
    };
    let metadata = MetadataRequest::for_certificate(ctx.mint, ctx.issuer, &course_name, metadata_uri);
    ctx.certificate = Some(
        Certificate {
            student: ctx.student,
            issuer: ctx.issuer,
            student_name,
            course_name,
            issuer_name,
            mint_time: ctx.unix_timestamp,
        },
    );
    ctx.platform.total_certificates = counted;
    Ok(CertificateIssuance { mint, metadata })
}

/// Why acquiring `amount` shares is refused, if it is: the shares sold so far
/// and the shares asked for must not exceed the supply.
pub open spec fn buy_property_tokens_refusal(property: PropertyView, amount: nat) -> Option<
    PlatformError,
> {
    if property.tokens_sold + amount > property.total_tokens {
        Some(PlatformError::InsufficientTokensAvailable)
    } else {
        None
    }
}

/// Acquires `amount` shares of a property for the buyer: asks for the shares
/// to be minted and counts them as sold. There is no partial fill.
pub fn buy_property_tokens(ctx: &mut BuyPropertyTokens, amount: u64) -> (result: Result<
    MintOrder,
    PlatformError,
>)
    ensures
        match buy_property_tokens_refusal(old(ctx).property@, amount as nat) {
            Some(refusal) => {
                &&& result matches Err(error)
                &&& error == refusal
                &&& *final(ctx) == *old(ctx)
            },
            None => {
                &&& result matches Ok(order)
                &&& order@ == (MintOrderView {
                    asset: old(ctx).property.mint,
                    recipient: old(ctx).buyer,
                    amount: amount as nat,
                    authority: old(ctx).platform.authority,
                })
                &&& final(ctx).property@ == old(ctx).property@.with_sold(amount as nat)
                &&& final(ctx).platform == old(ctx).platform
                &&& final(ctx).buyer == old(ctx).buyer
            },
        },
        old(ctx).property@.well_formed() ==> final(ctx).property@.well_formed(),
{
    let sold: u64 = match ctx.property.tokens_sold.checked_add(amount) {
        Some(sold) => sold,
        None => {
            return Err(PlatformError::InsufficientTokensAvailable);
        },
    };
    if sold > ctx.property.total_tokens {
        return Err(PlatformError::InsufficientTokensAvailable);
    }
    let order = MintOrder {
        asset: ctx.property.mint,
        recipient: ctx.buyer,
        amount,
        authority: ctx.platform.mint_authority(),
    };
    ctx.property.tokens_sold = sold;
    Ok(order)
}

/// Why registering a property is refused, if it is. The conditions are tried
/// in this order: the caller must be the authority, the slot must be empty,
/// the texts must fit, and the counter must have room.
pub open spec fn initialize_property_refusal(
    platform: PlatformView,
    slot_taken: bool,
    caller: Identity,
    property_name: Seq<char>,
    metadata_uri: Seq<char>,
) -> Option<PlatformError> {
    if caller != platform.authority {
        Some(PlatformError::Unauthorized)
    } else if slot_taken {
        Some(PlatformError::DuplicateRecord)
    } else if stored_len(property_name) > MAX_NAME_LEN || stored_len(metadata_uri)
        > MAX_URI_LEN {
        Some(PlatformError::TextTooLong)
    } else if platform.total_properties >= u64::MAX {
        Some(PlatformError::ArithmeticOverflow)
    } else {
        None
    }
}

/// Registers a property: fills the property's slot, with no share sold yet,
/// and counts the property.
pub fn initialize_property(
    ctx: &mut InitializeProperty,
    property_name: String,
    total_value: u64,
    total_tokens: u64,
    metadata_uri: String,
) -> (result: Result<(), PlatformError>)
    ensures
        match initialize_property_refusal(
            old(ctx).platform@,
            old(ctx).property is Some,
            old(ctx).authority,
            property_name@,
            metadata_uri@,
        ) {
            Some(refusal) => {
                &&& result matches Err(error)
                &&& error == refusal
                &&& *final(ctx) == *old(ctx)
            },
            None => {
                &&& result is Ok
                &&& final(ctx).platform@ == old(ctx).platform@.with_property_counted()
                &&& final(ctx).property matches Some(property)
                &&& property@ == (PropertyView {
                    name: property_name@,
                    total_value: total_value as nat,
                    total_tokens: total_tokens as nat,
                    tokens_sold: 0,
                    metadata_uri: metadata_uri@,
                    mint: old(ctx).mint,
                })
                &&& property@.well_formed()
                &&& final(ctx).mint == old(ctx).mint
                &&& final(ctx).authority == old(ctx).authority
            },
        },
{
    if ctx.authority != ctx.platform.authority {
        return Err(PlatformError::Unauthorized);
    }
    if ctx.property.is_some() {
        return Err(PlatformError::DuplicateRecord);
    }
    if !fits(&property_name, MAX_NAME_LEN) || !fits(&metadata_uri, MAX_URI_LEN) {
        return Err(PlatformError::TextTooLong);
    }
    let counted: u64 = match ctx.platform.total_properties.checked_add(1) {
        Some(counted) => counted,
        None => {
            return Err(PlatformError::ArithmeticOverflow);
        },
    };
    ctx.property = Some(
        Property {
            name: property_name,
            total_value,
            total_tokens,
            tokens_sold: 0,
            metadata_uri,
            mint: ctx.mint,
        },
    );
    ctx.platform.total_properties = counted;
    Ok(())
}

/// The nominal monthly yield of a property: one percent of its value, rounded
/// down.
pub open spec fn monthly_rent(total_value: nat) -> nat {
    total_value / 100
}

/// The part of the monthly yield owed to a holder of `token_balance` out of
/// `total_tokens` shares, rounded down.
pub open spec fn rent_share(total_value: nat, token_balance: nat, total_tokens: nat) -> nat
    recommends
        total_tokens > 0,
{
    (monthly_rent(total_value) * token_balance) / total_tokens
}

/// Why a claim is refused, if it is. The conditions are tried in this order:
/// the claimant must hold shares, the supply must not be zero, the yield
/// times the holding must fit in 64 bits, the platform must be able to pay,
/// and the claimant's balance must have room.
pub open spec fn claim_rent_refusal(
    property: PropertyView,
    token_balance: nat,
    platform_lamports: nat,
    user_lamports: nat,
) -> Option<PlatformError> {
    let share = rent_share(property.total_value, token_balance, property.total_tokens);
    if token_balance == 0 {
        Some(PlatformError::NoTokensOwned)
    } else if property.total_tokens == 0 {
        Some(PlatformError::DivisionByZero)
    } else if monthly_rent(property.total_value) * token_balance > u64::MAX {
        Some(PlatformError::ArithmeticOverflow)
    } else if share > platform_lamports {
        Some(PlatformError::InsufficientFunds)
    } else if user_lamports + share > u64::MAX {
        Some(PlatformError::ArithmeticOverflow)
    } else {
        None
    }
}

/// Pays the claimant's part of the monthly yield out of the platform's liquid
/// balance, and returns the amount paid.
pub fn claim_rent(ctx: &mut ClaimRent) -> (result: Result<u64, PlatformError>)
    ensures
        match claim_rent_refusal(
            old(ctx).property@,
            old(ctx).user_token_balance as nat,
            old(ctx).platform_lamports as nat,
            old(ctx).user_lamports as nat,
        ) {
            Some(refusal) => {
                &&& result matches Err(error)
                &&& error == refusal
                &&& *final(ctx) == *old(ctx)
            },
            None => {
                &&& result matches Ok(paid)
                &&& paid == rent_share(
                    old(ctx).property@.total_value,
                    old(ctx).user_token_balance as nat,
                    old(ctx).property@.total_tokens,
                )
                &&& final(ctx).platform_lamports == old(ctx).platform_lamports - paid
                &&& final(ctx).user_lamports == old(ctx).user_lamports + paid
                &&& final(ctx).property == old(ctx).property
                &&& final(ctx).user_token_balance == old(ctx).user_token_balance
            },
        },
{
    let token_balance: u64 = ctx.user_token_balance;
    if token_balance == 0 {
        return Err(PlatformError::NoTokensOwned);
    }
    if ctx.property.total_tokens == 0 {
        return Err(PlatformError::DivisionByZero);
    }
    let rent: u64 = ctx.property.total_value / 100;
    let weighted: u64 = match rent.checked_mul(token_balance) {
        Some(weighted) => weighted,
        None => {
            return Err(PlatformError::ArithmeticOverflow);
        },
    };
    let user_share: u64 = weighted / ctx.property.total_tokens;
    let platform_after: u64 = match ctx.platform_lamports.checked_sub(user_share) {
        Some(after) => after,
        None => {
            return Err(PlatformError::InsufficientFunds);
        },
    };
    let user_after: u64 = match ctx.user_lamports.checked_add(user_share) {
        Some(after) => after,
        None => {
            return Err(PlatformError::ArithmeticOverflow);
        },
    };
    ctx.platform_lamports = platform_after;
    ctx.user_lamports = user_after;
    Ok(user_share)
}

/// Creates the platform registry for the signer, who becomes its authority.
/// Where a registry already exists, the call is refused.
pub fn initialize_platform(ctx: &mut InitializePlatform) -> (result: Result<(), PlatformError>)
    ensures
        old(ctx).platform is Some ==> {
            &&& result matches Err(error)
            &&& error == PlatformError::DuplicateRecord
            &&& *final(ctx) == *old(ctx)
        },
        old(ctx).platform is None ==> {
            &&& result is Ok
            &&& final(ctx).platform matches Some(platform)
            &&& platform@ == PlatformView::fresh(old(ctx).authority)
            &&& final(ctx).authority == old(ctx).authority
        },
{
    if ctx.platform.is_some() {
        return Err(PlatformError::DuplicateRecord);
    }
    ctx.platform = Some(Platform::new(ctx.authority));
    Ok(())
}

/// Why authorizing an issuer is refused, if it is. The conditions are tried
/// in this order: the caller must be the authority, the issuer must not be
/// listed yet, and the allow-list must have room.
pub open spec fn add_issuer_refusal(platform: PlatformView, caller: Identity, issuer: Identity)
    -> Option<PlatformError> {
    if caller != platform.authority {
        Some(PlatformError::Unauthorized)
    } else if platform.authorized_issuers.contains(issuer) {
        Some(PlatformError::IssuerAlreadyAuthorized)
    } else if platform.authorized_issuers.len() >= MAX_ISSUERS {
        Some(PlatformError::IssuerCapacityExceeded)
    } else {
        None
    }
}

/// Appends `issuer` to the allow-list of the platform.
pub fn add_issuer(ctx: &mut AddIssuer, issuer: Identity) -> (result: Result<(), PlatformError>)
    ensures
        match add_issuer_refusal(old(ctx).platform@, old(ctx).authority, issuer) {
            Some(refusal) => {
                &&& result matches Err(error)
                &&& error == refusal
                &&& *final(ctx) == *old(ctx)
            },
            None => {
                &&& result is Ok
                &&& final(ctx).platform@ == old(ctx).platform@.with_issuer(issuer)
                &&& final(ctx).authority == old(ctx).authority
            },
        },
        old(ctx).platform@.well_formed() ==> final(ctx).platform@.well_formed(),
{
    if ctx.authority != ctx.platform.authority {
        return Err(PlatformError::Unauthorized);
    }
    if ctx.platform.is_authorized_issuer(&issuer) {
        return Err(PlatformError::IssuerAlreadyAuthorized);
    }
    if ctx.platform.authorized_issuers.len() >= MAX_ISSUERS {
        return Err(PlatformError::IssuerCapacityExceeded);
    }
    ctx.platform.authorized_issuers.push(issuer);
    Ok(())
}

} // verus!
