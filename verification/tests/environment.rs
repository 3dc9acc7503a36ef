use by_the_peoples::environment::{check_environment, env_or_default, in_development, in_production, in_staging};
use by_the_peoples::files::has_extension;
use by_the_peoples::text::{parse_unsigned, str_equal};

#[test]
fn deployment_is_read_from_the_variable() {
    assert!(in_production(Some("production")));
    assert!(!in_production(Some("staging")));
    assert!(in_staging(Some("staging")));
    assert!(in_development(Some("development")));
    assert!(!in_development(Some("Development")));
}

#[test]
fn no_deployment_holds_when_the_variable_is_unset() {
    assert!(!in_production(None));
    assert!(!in_staging(None));
    assert!(!in_development(None));
    assert!(!check_environment(None, ""));
}

#[test]
fn settings_fall_back_to_their_default() {
    assert_eq!(env_or_default(None, "3000"), "3000");
    assert_eq!(env_or_default(Some(String::from("8080")), "3000"), "8080");
    assert_eq!(env_or_default(Some(String::new()), "3000"), "");
}

#[test]
fn files_are_picked_by_their_last_extension() {
    assert!(has_extension("sql_file.sql", "sql"));
    assert!(has_extension("archive.tar.gz", "gz"));
    assert!(!has_extension("archive.tar.gz", "tar"));
    assert!(!has_extension("notes.sql.txt", "sql"));
    assert!(has_extension("Makefile", "Makefile"));
    assert!(has_extension("trailing.", ""));
    assert!(!has_extension(".sql.bak", "sql"));
}

#[test]
fn strings_compare_by_their_characters() {
    assert!(str_equal("héllo", "héllo"));
    assert!(!str_equal("hello", "hell"));
    assert!(!str_equal("abc", "abd"));
    assert!(str_equal("", ""));
}

#[test]
fn unsigned_numbers_are_read_within_bounds() {
    assert_eq!(parse_unsigned("500000", u64::MAX), Some(500000));
    assert_eq!(parse_unsigned("+42", u64::MAX), Some(42));
    assert_eq!(parse_unsigned("", u64::MAX), None);
    assert_eq!(parse_unsigned("+", u64::MAX), None);
    assert_eq!(parse_unsigned("-1", u64::MAX), None);
    assert_eq!(parse_unsigned("12a", u64::MAX), None);
    assert_eq!(parse_unsigned("4294967295", u32::MAX as u64), Some(4294967295));
    assert_eq!(parse_unsigned("4294967296", u32::MAX as u64), None);
    assert_eq!(parse_unsigned("18446744073709551615", u64::MAX), Some(u64::MAX));
    assert_eq!(parse_unsigned("18446744073709551616", u64::MAX), None);
    assert_eq!(parse_unsigned("007", 9), Some(7));
    assert_eq!(parse_unsigned("10", 9), None);
}

#[test]
fn it_works() {
    assert_eq!(2 + 2, 4);
}
