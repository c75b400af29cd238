use any_driver::driver::{choose_driver, install_drivers, AnyDriver, DriverRegistry};
use any_driver::error::AnyError;
use any_driver::options::AnyUrl;

fn driver(id: u32, schemes: &[&str]) -> AnyDriver<u32, u8> {
    let url_schemes: Vec<String> = schemes.iter().map(|s| s.to_string()).collect();
    AnyDriver::without_migrate(url_schemes, id)
}

fn url(s: &str) -> AnyUrl {
    AnyUrl::parse(s).expect("test URL must parse")
}

#[test]
fn choose_finds_unique_driver_among_disjoint_sets() {
    let mut registry: DriverRegistry<u32, u8> = DriverRegistry::new();
    let drivers = vec![
        driver(1, &["postgres", "postgresql"]),
        driver(2, &["mysql", "mariadb"]),
        driver(3, &["sqlite"]),
    ];
    assert!(install_drivers(&mut registry, drivers).is_ok());

    let chosen = choose_driver(&registry, &url("mysql://localhost/db")).unwrap();
    assert_eq!(chosen.connect, 2);
    let chosen = choose_driver(&registry, &url("postgresql://localhost/db")).unwrap();
    assert_eq!(chosen.connect, 1);
    let chosen = choose_driver(&registry, &url("sqlite://a.db")).unwrap();
    assert_eq!(chosen.connect, 3);
}

#[test]
fn choose_reports_the_exact_unmatched_scheme() {
    let mut registry: DriverRegistry<u32, u8> = DriverRegistry::new();
    let drivers = vec![driver(1, &["postgres"])];
    assert!(install_drivers(&mut registry, drivers).is_ok());

    let err = choose_driver(&registry, &url("mssql://server/db")).unwrap_err();
    let AnyError::Configuration(scheme) = err;
    assert_eq!(scheme, "mssql");
}

#[test]
fn choose_on_empty_driver_list_always_errs() {
    let mut registry: DriverRegistry<u32, u8> = DriverRegistry::new();
    assert!(install_drivers(&mut registry, Vec::new()).is_ok());

    let err = choose_driver(&registry, &url("postgres://h/db")).unwrap_err();
    let AnyError::Configuration(scheme) = err;
    assert_eq!(scheme, "postgres");
}

#[test]
fn registration_order_breaks_ties() {
    let mut registry: DriverRegistry<u32, u8> = DriverRegistry::new();
    let drivers = vec![
        driver(7, &["shared", "first-only"]),
        driver(8, &["shared", "second-only"]),
    ];
    assert!(install_drivers(&mut registry, drivers).is_ok());

    for _ in 0..3 {
        let chosen = choose_driver(&registry, &url("shared://x")).unwrap();
        assert_eq!(chosen.connect, 7);
    }
    let chosen = choose_driver(&registry, &url("second-only://x")).unwrap();
    assert_eq!(chosen.connect, 8);
}

#[test]
fn install_twice_fails_and_leaves_registry_unchanged() {
    let mut registry: DriverRegistry<u32, u8> = DriverRegistry::new();
    assert!(!registry.installed());
    let drivers = vec![driver(1, &["postgres"]), driver(2, &["mysql"])];
    assert!(install_drivers(&mut registry, drivers).is_ok());
    assert!(registry.installed());

    let rejected = install_drivers(&mut registry, Vec::new()).unwrap_err();
    assert!(rejected.is_empty());
    let rejected = install_drivers(&mut registry, vec![driver(9, &["sqlite"])]).unwrap_err();
    assert_eq!(rejected.len(), 1);

    let kept = registry.get();
    assert_eq!(kept.len(), 2);
    assert_eq!(kept[0].connect, 1);
    assert_eq!(kept[0].url_schemes, vec!["postgres".to_string()]);
    assert_eq!(kept[1].connect, 2);
    assert_eq!(kept[1].url_schemes, vec!["mysql".to_string()]);
}

#[test]
fn scheme_comparison_is_case_sensitive_against_parsed_scheme() {
    let mut registry: DriverRegistry<u32, u8> = DriverRegistry::new();
    let drivers = vec![driver(1, &["POSTGRES"])];
    assert!(install_drivers(&mut registry, drivers).is_ok());

    // url::Url lower-cases the scheme while parsing, so an upper-cased
    // registration never matches a parsed URL.
    let err = choose_driver(&registry, &url("POSTGRES://h/db")).unwrap_err();
    let AnyError::Configuration(scheme) = err;
    assert_eq!(scheme, "postgres");
}

#[test]
fn with_migrate_keeps_the_capability_block() {
    let d: AnyDriver<u32, u8> = AnyDriver::with_migrate(vec!["postgres".to_string()], 4, 11u8);
    assert_eq!(d.migrate_database, Some(11u8));
    let d: AnyDriver<u32, u8> = AnyDriver::without_migrate(vec!["postgres".to_string()], 4);
    assert_eq!(d.migrate_database, None);
}
