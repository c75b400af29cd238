use any_driver::connection::establish_driver;
use any_driver::driver::{install_drivers, AnyDriver, DriverRegistry};
use any_driver::error::AnyError;
use any_driver::options::{AnyConnectOptions, AnyUrl};

#[test]
fn parse_extracts_the_scheme_and_keeps_the_raw_string() {
    let u = AnyUrl::parse("postgres://user@localhost:5432/db").unwrap();
    assert_eq!(u.scheme(), "postgres");
    assert_eq!(u.scheme_string(), "postgres".to_string());
    assert_eq!(u.as_str(), "postgres://user@localhost:5432/db");
}

#[test]
fn parse_lower_cases_the_scheme_as_the_url_parser_does() {
    let u = AnyUrl::parse("MySQL://localhost/db").unwrap();
    assert_eq!(u.scheme(), "mysql");
}

#[test]
fn parse_rejects_a_relative_or_malformed_url() {
    assert!(AnyUrl::parse("not an absolute url").is_none());
    assert!(AnyUrl::parse("/just/a/path").is_none());
    assert!(AnyUrl::parse("").is_none());
}

#[test]
fn establish_with_unregistered_scheme_errs_before_any_backend_work() {
    let mut registry: DriverRegistry<u32, u8> = DriverRegistry::new();
    let drivers = vec![AnyDriver::without_migrate(vec!["postgres".to_string()], 1u32)];
    assert!(install_drivers(&mut registry, drivers).is_ok());

    let url = AnyUrl::parse("redis://localhost:6379").unwrap();
    let options = AnyConnectOptions::new(url);
    // The configuration error comes straight out of selection; a driver (and
    // with it a connect entry point) is only ever handed out on success.
    let err = establish_driver(&registry, &options).unwrap_err();
    let AnyError::Configuration(scheme) = err;
    assert_eq!(scheme, "redis");
    assert_eq!(err_scheme_via_accessor(&AnyError::Configuration(scheme)), "redis");
}

fn err_scheme_via_accessor(e: &AnyError) -> &str {
    e.scheme_str()
}

#[test]
fn establish_hands_out_the_matching_driver() {
    let mut registry: DriverRegistry<u32, u8> = DriverRegistry::new();
    let drivers = vec![
        AnyDriver::without_migrate(vec!["postgres".to_string()], 1u32),
        AnyDriver::without_migrate(vec!["redis".to_string()], 2u32),
    ];
    assert!(install_drivers(&mut registry, drivers).is_ok());

    let url = AnyUrl::parse("redis://localhost:6379").unwrap();
    let options = AnyConnectOptions::new(url);
    let driver = establish_driver(&registry, &options).unwrap();
    assert_eq!(driver.connect, 2);
}
