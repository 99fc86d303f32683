//! What holds of the ledger whatever calls are made, and in whatever order.

use crate::error::{ErrorCategory, PlatformError};
use crate::identity::Identity;
use crate::model::{LedgerView, Operation};
use crate::operations::{monthly_rent, rent_share};
use crate::records::{
    Certificate, CertificateView, Platform, PlatformView, Property, PropertyView, MAX_ISSUERS,
};
use vstd::arithmetic::div_mod::{lemma_div_is_ordered, lemma_div_multiples_vanish};
use vstd::arithmetic::mul::{lemma_mul_inequality, lemma_mul_is_commutative};
use vstd::prelude::*;

verus! {

impl LedgerView {
    /// The counters of the registry are the numbers of records stored, and
    /// without a registry nothing is stored.
    pub open spec fn counters_match_records(self) -> bool {
        &&& self.certificates.dom().finite()
        &&& self.properties.dom().finite()
        &&& match self.platform {
            Some(platform) => {
                &&& platform.total_certificates == self.certificates.dom().len()
                &&& platform.total_properties == self.properties.dom().len()
            },
            None => self.certificates.dom().len() == 0 && self.properties.dom().len() == 0,
        }
    }

    /// The allow-list of the registry, where there is one, is within its
    /// capacity and names nobody twice.
    pub open spec fn registry_well_formed(self) -> bool {
        self.platform matches Some(platform) ==> platform.well_formed()
    }

    /// Every stored record is within its limits, and every property is
    /// stored under the identity of its own share class.
    pub open spec fn records_well_formed(self) -> bool {
        &&& self.registry_well_formed()
        &&& forall|asset: Identity| #[trigger]
            self.certificates.dom().contains(asset) ==> self.certificates[asset].well_formed()
        &&& forall|asset: Identity| #[trigger]
            self.properties.dom().contains(asset) ==> self.properties[asset].well_formed()
        &&& self.properties_keyed_by_asset()
    }
}

/// A refused call changes nothing, and an accepted call leaves what `apply`
/// says.
pub proof fn law_refusal_changes_nothing(ledger: LedgerView, op: Operation)
    ensures
        ledger.apply(op) is Err ==> ledger.after(op) == ledger,
        ledger.apply(op) matches Ok(next) ==> ledger.after(op) == next,
{
}

/// A single call never lets a property sell more shares than it has.
pub proof fn law_supply_cap_step(ledger: LedgerView, op: Operation)
    requires
        ledger.supply_respected(),
    ensures
        ledger.after(op).supply_respected(),
{
    let next = ledger.after(op);
    assert forall|asset: Identity| #[trigger]
        next.properties.dom().contains(asset) implies next.properties[asset].tokens_sold
        <= next.properties[asset].total_tokens by {
        if ledger.properties.dom().contains(asset) {
            assert(ledger.properties[asset].tokens_sold <= ledger.properties[asset].total_tokens);
        }
    }
}

/// Whatever calls are made, no property ever has more shares sold than it
/// has.
pub proof fn law_supply_cap(ledger: LedgerView, ops: Seq<Operation>)
    requires
        ledger.supply_respected(),
    ensures
        ledger.after_all(ops).supply_respected(),
    decreases ops.len(),
{
    if ops.len() > 0 {
        law_supply_cap_step(ledger, ops.first());
        law_supply_cap(ledger.after(ops.first()), ops.drop_first());
    }
}

/// Asking for more shares than a property has left is refused as a capacity
/// error, and the shares sold stay as they were.
pub proof fn law_oversubscription_refused(
    ledger: LedgerView,
    buyer: Identity,
    asset: Identity,
    quantity: nat,
)
    requires
        ledger.platform is Some,
        ledger.properties.dom().contains(asset),
        ledger.properties[asset].tokens_sold + quantity > ledger.properties[asset].total_tokens,
    ensures
        ledger.apply(Operation::AcquireShares { buyer, asset, quantity }) == Err::<
            LedgerView,
            PlatformError,
        >(PlatformError::InsufficientTokensAvailable),
        PlatformError::InsufficientTokensAvailable.category_of() == ErrorCategory::Capacity,
        ledger.after(Operation::AcquireShares { buyer, asset, quantity }) == ledger,
{
}

/// An issuer who is not on the allow-list gets no credential issued: the
/// call is refused, no credential is stored and no certificate is counted.
pub proof fn law_unlisted_issuer_issues_nothing(
    ledger: LedgerView,
    issuer: Identity,
    student: Identity,
    asset: Identity,
    student_name: Seq<char>,
    course_name: Seq<char>,
    issuer_name: Seq<char>,
    now: int,
)
    requires
        ledger.platform matches Some(platform) ==> !platform.authorized_issuers.contains(issuer),
    ensures
        ({
            let op = Operation::IssueCredential {
                issuer,
                student,
                asset,
                student_name,
                course_name,
                issuer_name,
                now,
            };
            &&& ledger.apply(op) is Err
            &&& ledger.platform is Some ==> ledger.apply(op) == Err::<LedgerView, PlatformError>(
                PlatformError::UnauthorizedIssuer,
            )
            &&& ledger.after(op) == ledger
        }),
{
}

/// A credential, once stored, stays as it is through any single call.
pub proof fn law_credential_kept_step(ledger: LedgerView, op: Operation, asset: Identity)
    requires
        ledger.certificates.dom().contains(asset),
    ensures
        ledger.after(op).certificates.dom().contains(asset),
        ledger.after(op).certificates[asset] == ledger.certificates[asset],
{
}

/// A credential, once stored, is never removed and never changed.
pub proof fn law_credential_kept(ledger: LedgerView, ops: Seq<Operation>, asset: Identity)
    requires
        ledger.certificates.dom().contains(asset),
    ensures
        ledger.after_all(ops).certificates.dom().contains(asset),
        ledger.after_all(ops).certificates[asset] == ledger.certificates[asset],
    decreases ops.len(),
{
    if ops.len() > 0 {
        law_credential_kept_step(ledger, ops.first(), asset);
        law_credential_kept(ledger.after(ops.first()), ops.drop_first(), asset);
    }
}

/// Through any single call a property stays registered and keeps its name,
/// value, supply, locator and share class. Its shares sold change only by an
/// accepted acquisition of its shares, and then by exactly the quantity
/// acquired.
pub proof fn law_property_kept_step(ledger: LedgerView, op: Operation, asset: Identity)
    requires
        ledger.properties.dom().contains(asset),
    ensures
        ({
            let before = ledger.properties[asset];
            let after = ledger.after(op).properties[asset];
            &&& ledger.after(op).properties.dom().contains(asset)
            &&& after == (PropertyView { tokens_sold: after.tokens_sold, ..before })
            &&& after.tokens_sold >= before.tokens_sold
            &&& after.tokens_sold != before.tokens_sold ==> {
                &&& ledger.apply(op) is Ok
                &&& op matches Operation::AcquireShares { asset: acquired, quantity, .. }
                &&& acquired == asset
                &&& after.tokens_sold == before.tokens_sold + quantity
            }
        }),
{
}

/// A property, once registered, is never removed; its name, value, supply,
/// locator and share class never change; and its shares sold never go down.
pub proof fn law_property_kept(ledger: LedgerView, ops: Seq<Operation>, asset: Identity)
    requires
        ledger.properties.dom().contains(asset),
    ensures
        ({
            let before = ledger.properties[asset];
            let after = ledger.after_all(ops).properties[asset];
            &&& ledger.after_all(ops).properties.dom().contains(asset)
            &&& after == (PropertyView { tokens_sold: after.tokens_sold, ..before })
            &&& after.tokens_sold >= before.tokens_sold
        }),
    decreases ops.len(),
{
    if ops.len() > 0 {
        law_property_kept_step(ledger, ops.first(), asset);
        law_property_kept(ledger.after(ops.first()), ops.drop_first(), asset);
    }
}

/// The registry, once created, is never removed; its authority never
/// changes; and its counters never go down.
pub proof fn law_registry_kept(ledger: LedgerView, ops: Seq<Operation>)
    requires
        ledger.platform is Some,
    ensures
        ({
            let before = ledger.platform.unwrap();
            &&& ledger.after_all(ops).platform matches Some(after)
            &&& after.authority == before.authority
            &&& after.total_certificates >= before.total_certificates
            &&& after.total_properties >= before.total_properties
        }),
    decreases ops.len(),
{
    if ops.len() > 0 {
        law_counters_step(ledger, ops.first());
        law_registry_kept(ledger.after(ops.first()), ops.drop_first());
    }
}

/// An asset has at most one credential, ever: once one is issued, whatever
/// calls follow, issuing another for the same asset is refused, and the
/// first one is still the one stored.
pub proof fn law_one_credential_per_asset(
    ledger: LedgerView,
    first: Operation,
    between: Seq<Operation>,
    second: Operation,
)
    requires
        first is IssueCredential,
        second is IssueCredential,
        first->IssueCredential_asset == second->IssueCredential_asset,
        ledger.apply(first) is Ok,
    ensures
        ({
            let asset = first->IssueCredential_asset;
            let issued = ledger.after(first);
            let later = issued.after_all(between);
            &&& issued.certificates.dom().contains(asset)
            &&& later.apply(second) is Err
            &&& later.after(second) == later
            &&& later.certificates[asset] == issued.certificates[asset]
        }),
{
    let asset = first->IssueCredential_asset;
    let issued = ledger.after(first);
    law_credential_kept(issued, between, asset);
}

/// One call moves the counters of the registry by exactly one for an
/// accepted issuance or registration, and not at all otherwise. It never
/// changes the authority.
pub proof fn law_counters_step(ledger: LedgerView, op: Operation)
    requires
        ledger.platform is Some,
    ensures
        ({
            let before = ledger.platform.unwrap();
            let accepted = ledger.apply(op) is Ok;
            &&& ledger.after(op).platform matches Some(after)
            &&& after.authority == before.authority
            &&& after.total_certificates == before.total_certificates + (if accepted
                && op is IssueCredential {
                1nat
            } else {
                0nat
            })
            &&& after.total_properties == before.total_properties + (if accepted
                && op is RegisterProperty {
                1nat
            } else {
                0nat
            })
        }),
{
}

/// A single call keeps the counters equal to the numbers of records stored.
pub proof fn law_counters_match_records_step(ledger: LedgerView, op: Operation)
    requires
        ledger.counters_match_records(),
    ensures
        ledger.after(op).counters_match_records(),
{
    let next = ledger.after(op);
    match op {
        Operation::IssueCredential { asset, .. } => {
            if ledger.apply(op) is Ok {
                assert(next.certificates.dom() =~= ledger.certificates.dom().insert(asset));
            }
        },
        Operation::RegisterProperty { asset, .. } => {
            if ledger.apply(op) is Ok {
                assert(next.properties.dom() =~= ledger.properties.dom().insert(asset));
            }
        },
        Operation::AcquireShares { asset, .. } => {
            if ledger.apply(op) is Ok {
                assert(next.properties.dom() =~= ledger.properties.dom());
            }
        },
        _ => {},
    }
}

/// Starting from a ledger without records, whatever calls are made, the
/// counters of the registry are exactly the numbers of credentials and of
/// properties stored.
pub proof fn law_counters_match_records(platform_lamports: nat, ops: Seq<Operation>)
    ensures
        LedgerView::empty(platform_lamports).after_all(ops).counters_match_records(),
{
    let start = LedgerView::empty(platform_lamports);
    assert(start.counters_match_records());
    lemma_counters_match_records_kept(start, ops);
}

proof fn lemma_counters_match_records_kept(ledger: LedgerView, ops: Seq<Operation>)
    requires
        ledger.counters_match_records(),
    ensures
        ledger.after_all(ops).counters_match_records(),
    decreases ops.len(),
{
    if ops.len() > 0 {
        law_counters_match_records_step(ledger, ops.first());
        lemma_counters_match_records_kept(ledger.after(ops.first()), ops.drop_first());
    }
}

/// Only the authority changes the allow-list, and only by appending one
/// issuer who was not on it while it had room.
pub proof fn law_allow_list_guarded(ledger: LedgerView, op: Operation)
    requires
        ledger.platform is Some,
        ledger.after(op).platform.unwrap().authorized_issuers
            != ledger.platform.unwrap().authorized_issuers,
    ensures
        ({
            let before = ledger.platform.unwrap();
            let after = ledger.after(op).platform.unwrap();
            &&& op matches Operation::AddIssuer { caller, issuer }
            &&& caller == before.authority
            &&& !before.authorized_issuers.contains(issuer)
            &&& before.authorized_issuers.len() < MAX_ISSUERS
            &&& after.authorized_issuers == before.authorized_issuers.push(issuer)
        }),
{
}

/// A single call keeps the allow-list within its capacity and free of
/// repetitions.
pub proof fn law_registry_well_formed_step(ledger: LedgerView, op: Operation)
    requires
        ledger.registry_well_formed(),
    ensures
        ledger.after(op).registry_well_formed(),
{
    match op {
        Operation::InitPlatform { authority } => {
            assert(PlatformView::fresh(authority).authorized_issuers.len() == 0);
        },
        _ => {},
    }
}

/// Whatever calls are made, the allow-list stays within its capacity and
/// names nobody twice.
pub proof fn law_registry_well_formed(ledger: LedgerView, ops: Seq<Operation>)
    requires
        ledger.registry_well_formed(),
    ensures
        ledger.after_all(ops).registry_well_formed(),
    decreases ops.len(),
{
    if ops.len() > 0 {
        law_registry_well_formed_step(ledger, ops.first());
        law_registry_well_formed(ledger.after(ops.first()), ops.drop_first());
    }
}

/// A single call keeps every stored record within its limits.
pub proof fn law_records_well_formed_step(ledger: LedgerView, op: Operation)
    requires
        ledger.records_well_formed(),
    ensures
        ledger.after(op).records_well_formed(),
{
    let next = ledger.after(op);
    law_registry_well_formed_step(ledger, op);
    assert forall|asset: Identity| #[trigger]
        next.certificates.dom().contains(asset) implies next.certificates[asset].well_formed() by {
        if ledger.certificates.dom().contains(asset) {
            assert(ledger.certificates[asset].well_formed());
        }
    }
    assert forall|asset: Identity| #[trigger] next.properties.dom().contains(asset) implies {
        &&& next.properties[asset].well_formed()
        &&& next.properties[asset].mint == asset
    } by {
        if ledger.properties.dom().contains(asset) {
            assert(ledger.properties[asset].well_formed());
            assert(ledger.properties[asset].mint == asset);
        }
    }
}

/// Starting from a ledger without records, whatever calls are made, every
/// stored record is within its limits: no allow-list beyond its capacity, no
/// text beyond its room, no property with more shares sold than it has.
pub proof fn law_records_well_formed(platform_lamports: nat, ops: Seq<Operation>)
    ensures
        LedgerView::empty(platform_lamports).after_all(ops).records_well_formed(),
{
    lemma_records_well_formed_kept(LedgerView::empty(platform_lamports), ops);
}

proof fn lemma_records_well_formed_kept(ledger: LedgerView, ops: Seq<Operation>)
    requires
        ledger.records_well_formed(),
    ensures
        ledger.after_all(ops).records_well_formed(),
    decreases ops.len(),
{
    if ops.len() > 0 {
        law_records_well_formed_step(ledger, ops.first());
        lemma_records_well_formed_kept(ledger.after(ops.first()), ops.drop_first());
    }
}

/// A record whose allow-list or texts are within their limits fits the space
/// set aside for its kind.
pub proof fn law_records_fit_their_space(
    platform: PlatformView,
    certificate: CertificateView,
    property: PropertyView,
)
    ensures
        platform.well_formed() ==> platform.stored_size() <= Platform::SIZE,
        certificate.well_formed() ==> certificate.stored_size() <= Certificate::SIZE,
        property.well_formed() ==> property.stored_size() <= Property::SIZE,
{
}

/// A holder of at most all shares is paid at most the monthly yield.
pub proof fn law_rent_share_bounded(total_value: nat, token_balance: nat, total_tokens: nat)
    requires
        0 < total_tokens,
        token_balance <= total_tokens,
    ensures
        rent_share(total_value, token_balance, total_tokens) <= monthly_rent(total_value),
{
    let rent = monthly_rent(total_value) as int;
    lemma_mul_inequality(token_balance as int, total_tokens as int, rent);
    lemma_mul_is_commutative(rent, token_balance as int);
    lemma_mul_is_commutative(rent, total_tokens as int);
    lemma_div_is_ordered(rent * token_balance, rent * total_tokens, total_tokens as int);
    lemma_div_multiples_vanish(rent, total_tokens as int);
    lemma_mul_is_commutative(total_tokens as int, rent);
}

/// Holding more shares never pays less.
pub proof fn law_rent_share_monotonic(
    total_value: nat,
    smaller: nat,
    larger: nat,
    total_tokens: nat,
)
    requires
        0 < total_tokens,
        smaller <= larger,
    ensures
        rent_share(total_value, smaller, total_tokens) <= rent_share(
            total_value,
            larger,
            total_tokens,
        ),
{
    let rent = monthly_rent(total_value) as int;
    lemma_mul_inequality(smaller as int, larger as int, rent);
    lemma_mul_is_commutative(rent, smaller as int);
    lemma_mul_is_commutative(rent, larger as int);
    lemma_div_is_ordered(rent * smaller, rent * larger, total_tokens as int);
}

} // verus!
