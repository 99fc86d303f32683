//! A ledger of achievement credentials and fractional property shares.
//!
//! Vetted issuers hand out credentials that can never be issued twice for one
//! asset; the platform's authority registers properties whose shares can be
//! acquired up to a fixed supply; holders of shares claim a proportional part
//! of a nominal monthly yield.
//!
//! The operations work on plain values (`operations`, `context`), return what
//! they ask of the asset and metadata subsystems (`effects`), and can be run
//! against an in-memory ledger (`ledger`). What the ledger does is stated as a
//! state machine over mathematical values (`model`), and what always holds of
//! it is proved in `laws`.

pub mod context;
pub mod effects;
pub mod error;
pub mod identity;
pub mod laws;
pub mod ledger;
pub mod model;
pub mod operations;
pub mod records;
pub mod table;

pub use context::{
    AddIssuer, BuyPropertyTokens, ClaimRent, InitializePlatform, InitializeProperty,
    MintCertificate,
};
pub use effects::{
    certificate_metadata, CertificateIssuance, CertificateIssuanceView, Creator, MetadataRequest,
    MetadataRequestView, MintAuthority, MintOrder, MintOrderView, SOLE_CREATOR_SHARE,
};
pub use error::{ErrorCategory, PlatformError};
pub use identity::{contains_identity, Identity, IDENTITY_BYTES};
pub use ledger::Ledger;
pub use model::{LedgerView, Operation};
pub use operations::{
    add_issuer, buy_property_tokens, claim_rent, initialize_platform, initialize_property,
    mint_certificate,
};
pub use records::{
    fits, Certificate, CertificateView, Platform, PlatformView, Property, PropertyView,
    MAX_ISSUERS, MAX_NAME_LEN, MAX_URI_LEN,
};
pub use table::Table;
