use citizen_platform::{
    Certificate, Identity, Ledger, Platform, PlatformError, Property, Table,
};

fn id(byte: u8) -> Identity {
    Identity::new([byte; 32])
}

const AUTHORITY: u8 = 1;
const ISSUER: u8 = 10;
const STUDENT: u8 = 20;

fn issue(ledger: &mut Ledger, issuer: u8, asset: u8, course: &str) -> Result<(), PlatformError> {
    ledger
        .issue_credential(
            id(issuer),
            id(STUDENT),
            id(asset),
            String::from("Ada Lovelace"),
            String::from(course),
            String::from("Open Academy"),
            String::from("https://example.org/ada.json"),
            1_700_000_000,
        )
        .map(|_| ())
}

fn register(ledger: &mut Ledger, caller: u8, asset: u8, value: u64, tokens: u64) -> Result<(), PlatformError> {
    ledger.register_property(
        id(caller),
        id(asset),
        String::from("Harbour Tower"),
        value,
        tokens,
        String::from("https://example.org/tower.json"),
    )
}

fn counters(ledger: &Ledger) -> (u64, u64) {
    let platform = ledger.platform().expect("registry exists");
    (platform.total_properties, platform.total_certificates)
}

fn ready(platform_lamports: u64) -> Ledger {
    let mut ledger = Ledger::new(platform_lamports);
    ledger.init_platform(id(AUTHORITY)).expect("fresh ledger");
    ledger.add_issuer(id(AUTHORITY), id(ISSUER)).expect("authority adds");
    ledger
}

#[test]
fn table_creates_once_and_replaces_in_place() {
    let mut table: Table<Platform> = Table::new();
    assert!(!table.contains(&id(1)));
    assert_eq!(table.get(&id(1)), None);
    assert_eq!(table.update(id(1), Platform::new(id(9))), Err(PlatformError::RecordNotFound));

    assert_eq!(table.create(id(1), Platform::new(id(9))), Ok(()));
    assert_eq!(table.create(id(2), Platform::new(id(8))), Ok(()));
    assert_eq!(table.create(id(1), Platform::new(id(7))), Err(PlatformError::DuplicateRecord));
    assert_eq!(table.get(&id(1)), Some(&Platform::new(id(9))));
    assert_eq!(table.get(&id(2)), Some(&Platform::new(id(8))));

    assert_eq!(table.update(id(1), Platform::new(id(7))), Ok(()));
    assert_eq!(table.get(&id(1)), Some(&Platform::new(id(7))));
    assert_eq!(table.get(&id(2)), Some(&Platform::new(id(8))));
    assert!(table.contains(&id(2)));
    assert!(!table.contains(&id(3)));
}

#[test]
fn new_ledger_is_empty() {
    let ledger = Ledger::new(77);
    assert_eq!(ledger.platform(), None);
    assert_eq!(ledger.certificate(&id(30)), None);
    assert_eq!(ledger.property(&id(40)), None);
    assert_eq!(ledger.platform_lamports(), 77);
}

#[test]
fn nothing_works_before_the_registry_exists() {
    let mut ledger = Ledger::new(1_000);
    assert_eq!(ledger.add_issuer(id(AUTHORITY), id(ISSUER)), Err(PlatformError::RecordNotFound));
    assert_eq!(issue(&mut ledger, ISSUER, 30, "Rust 101"), Err(PlatformError::RecordNotFound));
    assert_eq!(register(&mut ledger, AUTHORITY, 40, 1, 1), Err(PlatformError::RecordNotFound));
    assert_eq!(
        ledger.acquire_shares(id(50), id(40), 1).map(|_| ()),
        Err(PlatformError::RecordNotFound)
    );
    assert_eq!(ledger.claim_yield(id(40), 1, 0), Err(PlatformError::RecordNotFound));
    assert_eq!(ledger.platform(), None);
}

#[test]
fn init_platform_is_not_idempotent() {
    let mut ledger = Ledger::new(0);
    assert_eq!(ledger.init_platform(id(AUTHORITY)), Ok(()));
    assert_eq!(ledger.platform(), Some(&Platform::new(id(AUTHORITY))));
    assert_eq!(ledger.init_platform(id(2)), Err(PlatformError::DuplicateRecord));
    assert_eq!(ledger.init_platform(id(AUTHORITY)), Err(PlatformError::DuplicateRecord));
    assert_eq!(ledger.platform(), Some(&Platform::new(id(AUTHORITY))));
}

#[test]
fn credential_scenario() {
    let mut ledger = Ledger::new(0);
    ledger.init_platform(id(AUTHORITY)).expect("fresh ledger");
    assert_eq!(counters(&ledger), (0, 0));

    assert_eq!(ledger.add_issuer(id(AUTHORITY), id(ISSUER)), Ok(()));
    assert!(ledger.platform().expect("registry").is_authorized_issuer(&id(ISSUER)));

    assert_eq!(issue(&mut ledger, ISSUER, 30, "Rust 101"), Ok(()));
    assert_eq!(counters(&ledger), (0, 1));

    assert_eq!(issue(&mut ledger, 11, 31, "Rust 101"), Err(PlatformError::UnauthorizedIssuer));
    assert_eq!(counters(&ledger), (0, 1));
    assert_eq!(ledger.certificate(&id(31)), None);
}

#[test]
fn credential_is_stored_under_its_asset() {
    let mut ledger = ready(0);
    let issuance = ledger
        .issue_credential(
            id(ISSUER),
            id(STUDENT),
            id(30),
            String::from("Ada Lovelace"),
            String::from("Rust 101"),
            String::from("Open Academy"),
            String::from("https://example.org/ada.json"),
            -42,
        )
        .expect("issuer is listed");
    assert_eq!(issuance.mint.asset, id(30));
    assert_eq!(issuance.mint.recipient, id(STUDENT));
    assert_eq!(issuance.mint.amount, 1);
    assert_eq!(issuance.mint.authority.platform_authority(), id(AUTHORITY));
    assert_eq!(issuance.metadata.name, "Rust 101 Certificate");
    assert_eq!(issuance.metadata.uri, "https://example.org/ada.json");
    assert_eq!(
        ledger.certificate(&id(30)),
        Some(&Certificate {
            student: id(STUDENT),
            issuer: id(ISSUER),
            student_name: String::from("Ada Lovelace"),
            course_name: String::from("Rust 101"),
            issuer_name: String::from("Open Academy"),
            mint_time: -42,
        })
    );
    assert_eq!(ledger.certificate(&id(31)), None);
}

#[test]
fn one_credential_per_asset() {
    let mut ledger = ready(0);
    assert_eq!(issue(&mut ledger, ISSUER, 30, "Rust 101"), Ok(()));
    let first = ledger.certificate(&id(30)).cloned();

    assert_eq!(issue(&mut ledger, ISSUER, 30, "Compilers"), Err(PlatformError::DuplicateRecord));
    assert_eq!(ledger.certificate(&id(30)).cloned(), first);
    assert_eq!(counters(&ledger), (0, 1));

    assert_eq!(issue(&mut ledger, ISSUER, 31, "Compilers"), Ok(()));
    assert_eq!(register(&mut ledger, AUTHORITY, 30, 1_000, 10), Ok(()));
    assert_eq!(issue(&mut ledger, ISSUER, 30, "Rust 101"), Err(PlatformError::DuplicateRecord));
    assert_eq!(ledger.certificate(&id(30)).cloned(), first);
    assert_eq!(counters(&ledger), (1, 2));
}

#[test]
fn refused_issuance_leaves_the_ledger_alone() {
    let mut ledger = ready(0);
    let refused = ledger.issue_credential(
        id(ISSUER),
        id(STUDENT),
        id(30),
        "x".repeat(101),
        String::from("Rust 101"),
        String::from("Open Academy"),
        String::new(),
        0,
    );
    assert_eq!(refused, Err(PlatformError::TextTooLong));
    assert_eq!(ledger.certificate(&id(30)), None);
    assert_eq!(counters(&ledger), (0, 0));
}

#[test]
fn only_the_authority_changes_the_allow_list() {
    let mut ledger = ready(0);
    assert_eq!(ledger.add_issuer(id(ISSUER), id(12)), Err(PlatformError::Unauthorized));
    assert_eq!(ledger.add_issuer(id(AUTHORITY), id(ISSUER)), Err(PlatformError::IssuerAlreadyAuthorized));
    assert_eq!(ledger.platform().expect("registry").authorized_issuers, vec![id(ISSUER)]);
    for byte in 100..109u8 {
        assert_eq!(ledger.add_issuer(id(AUTHORITY), id(byte)), Ok(()));
    }
    assert_eq!(ledger.add_issuer(id(AUTHORITY), id(109)), Err(PlatformError::IssuerCapacityExceeded));
    assert_eq!(ledger.platform().expect("registry").authorized_issuers.len(), 10);
    assert_eq!(ledger.platform().expect("registry").authority, id(AUTHORITY));
}

#[test]
fn share_scenario() {
    let mut ledger = ready(0);
    assert_eq!(register(&mut ledger, AUTHORITY, 40, 100_000, 100), Ok(()));
    assert_eq!(counters(&ledger), (1, 0));
    assert_eq!(ledger.property(&id(40)).expect("registered").tokens_sold, 0);

    let order = ledger.acquire_shares(id(50), id(40), 60).expect("60 of 100");
    assert_eq!((order.asset, order.recipient, order.amount), (id(40), id(50), 60));
    assert_eq!(order.authority.platform_authority(), id(AUTHORITY));
    assert_eq!(ledger.property(&id(40)).expect("registered").tokens_sold, 60);

    assert_eq!(
        ledger.acquire_shares(id(51), id(40), 50).map(|_| ()),
        Err(PlatformError::InsufficientTokensAvailable)
    );
    assert_eq!(ledger.property(&id(40)).expect("registered").tokens_sold, 60);
    assert_eq!(counters(&ledger), (1, 0));
}

#[test]
fn registering_a_property() {
    let mut ledger = ready(0);
    assert_eq!(register(&mut ledger, ISSUER, 40, 100_000, 100), Err(PlatformError::Unauthorized));
    assert_eq!(ledger.property(&id(40)), None);
    assert_eq!(register(&mut ledger, AUTHORITY, 40, 100_000, 100), Ok(()));
    assert_eq!(
        ledger.property(&id(40)),
        Some(&Property {
            name: String::from("Harbour Tower"),
            total_value: 100_000,
            total_tokens: 100,
            tokens_sold: 0,
            metadata_uri: String::from("https://example.org/tower.json"),
            mint: id(40),
        })
    );
    assert_eq!(register(&mut ledger, AUTHORITY, 40, 5, 5), Err(PlatformError::DuplicateRecord));
    assert_eq!(ledger.property(&id(40)).expect("registered").total_value, 100_000);
    assert_eq!(counters(&ledger), (1, 0));
    assert_eq!(register(&mut ledger, AUTHORITY, 41, 5, 5), Ok(()));
    assert_eq!(counters(&ledger), (2, 0));
}

#[test]
fn shares_of_separate_properties_are_counted_apart() {
    let mut ledger = ready(0);
    register(&mut ledger, AUTHORITY, 40, 1_000, 10).expect("first");
    register(&mut ledger, AUTHORITY, 41, 1_000, 20).expect("second");
    assert!(ledger.acquire_shares(id(50), id(40), 10).is_ok());
    assert!(ledger.acquire_shares(id(50), id(41), 15).is_ok());
    assert_eq!(
        ledger.acquire_shares(id(50), id(40), 1).map(|_| ()),
        Err(PlatformError::InsufficientTokensAvailable)
    );
    assert_eq!(
        ledger.acquire_shares(id(50), id(42), 1).map(|_| ()),
        Err(PlatformError::RecordNotFound)
    );
    assert_eq!(ledger.property(&id(40)).expect("first").tokens_sold, 10);
    assert_eq!(ledger.property(&id(41)).expect("second").tokens_sold, 15);
}

#[test]
fn claiming_the_yield() {
    let mut ledger = ready(250);
    register(&mut ledger, AUTHORITY, 40, 100_000, 1_000).expect("registered");
    ledger.acquire_shares(id(50), id(40), 100).expect("100 of 1000");

    assert_eq!(ledger.claim_yield(id(40), 100, 7), Ok(100));
    assert_eq!(ledger.platform_lamports(), 150);
    assert_eq!(ledger.claim_yield(id(40), 0, 7), Err(PlatformError::NoTokensOwned));
    assert_eq!(ledger.claim_yield(id(41), 100, 7), Err(PlatformError::RecordNotFound));
    assert_eq!(ledger.claim_yield(id(40), 100, u64::MAX), Err(PlatformError::ArithmeticOverflow));
    assert_eq!(ledger.platform_lamports(), 150);
    assert_eq!(ledger.claim_yield(id(40), 100, 107), Ok(100));
    assert_eq!(ledger.claim_yield(id(40), 100, 207), Err(PlatformError::InsufficientFunds));
    assert_eq!(ledger.platform_lamports(), 50);
    assert_eq!(ledger.claim_yield(id(40), 50, 207), Ok(50));
    assert_eq!(ledger.platform_lamports(), 0);
    assert_eq!(ledger.property(&id(40)).expect("registered").tokens_sold, 100);
}
