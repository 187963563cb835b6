use preference_be::config::{Config, ConfigError};
use preference_be::numeric::Decimal;

#[test]
fn decimal_parse_forms() {
    assert_eq!(Decimal::parse("45.5081"), Some(Decimal { negative: false, mantissa: 455081, scale: 4 }));
    assert_eq!(Decimal::parse("-9.5"), Some(Decimal { negative: true, mantissa: 95, scale: 1 }));
    assert_eq!(Decimal::parse("+12"), Some(Decimal { negative: false, mantissa: 12, scale: 0 }));
    assert_eq!(Decimal::parse(".5"), Some(Decimal { negative: false, mantissa: 5, scale: 1 }));
    assert_eq!(Decimal::parse("7."), Some(Decimal { negative: false, mantissa: 7, scale: 0 }));
    assert_eq!(Decimal::parse("."), None);
    assert_eq!(Decimal::parse(""), None);
    assert_eq!(Decimal::parse("1.2.3"), None);
    assert_eq!(Decimal::parse("abc"), None);
    assert_eq!(Decimal::parse("18446744073709551616"), None);
    assert_eq!(Decimal::parse("18446744073709551615"), Some(Decimal { negative: false, mantissa: u64::MAX, scale: 0 }));
}

fn env(pairs: &[(&str, &str)]) -> Vec<(String, String)> {
    pairs.iter().map(|(k, v)| (k.to_string(), v.to_string())).collect()
}

const FULL: [(&str, &str); 7] = [
    ("STATIC_DIRECTORY", "/srv/static"),
    ("MONGO_DB_USERNAME", "user"),
    ("MONGO_DB_PASSWORD", "pw"),
    ("MONGO_DB_URL", "mongodb://localhost:27017"),
    ("MONGO_DB_DATABASE", "houses"),
    ("MONGO_DB_HOUSE_COLLECTION", "house"),
    ("PORT", "8080"),
];

#[test]
fn config_reads_every_variable() {
    let c = Config::try_from_env(&env(&FULL)).unwrap();
    assert_eq!(c.static_directory, "/srv/static");
    assert_eq!(c.mongodb.username, "user");
    assert_eq!(c.mongodb.password, "pw");
    assert_eq!(c.mongodb.url, "mongodb://localhost:27017");
    assert_eq!(c.mongodb.database, "houses");
    assert_eq!(c.mongodb.house_collection, "house");
    assert_eq!(c.http_port, 8080);
}

#[test]
fn config_reports_first_missing_variable() {
    let e = Config::try_from_env(&env(&FULL[2..])).unwrap_err();
    assert!(matches!(e, ConfigError::EnvVarMissing(n) if n == "STATIC_DIRECTORY"));
    let e = Config::try_from_env(&env(&FULL[..6])).unwrap_err();
    assert!(matches!(e, ConfigError::EnvVarMissing(n) if n == "PORT"));
}

#[test]
fn config_rejects_port_out_of_range() {
    let mut vars = env(&FULL);
    vars[6].1 = "65536".to_string();
    let e = Config::try_from_env(&vars).unwrap_err();
    assert!(matches!(e, ConfigError::ParseError(n) if n == "PORT"));
    vars[6].1 = "65535".to_string();
    assert_eq!(Config::try_from_env(&vars).unwrap().http_port, 65535);
}
