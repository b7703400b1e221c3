use blc::codec::{Config, DecodeError};
use blc::error::ClientError;
use blc::payload::{format_datetime_from_timestamp, ArticleMetadata, Articles, Category, Version, Versions};
use blc::store::home_dir;

#[test]
fn missing_file_means_not_logged_in() {
    assert!(matches!(Config::init(None), Err(ClientError::UnAuth)));
}

#[test]
fn stored_record_loads() {
    let bytes = Config::new("tok", 9).encode();
    let c = Config::init(Some(bytes)).unwrap();
    assert_eq!(c.token(), "tok");
}

#[test]
fn corrupt_record_is_credential_error() {
    let r = Config::init(Some(vec![1, 2, 3]));
    assert!(matches!(r, Err(ClientError::Credential(DecodeError::Truncated))));
}

#[test]
fn home_prefers_home_variable() {
    assert_eq!(home_dir(Some("/h".to_string()), Some("/p".to_string())), Some("/h".to_string()));
    assert_eq!(home_dir(None, Some("/p".to_string())), Some("/p".to_string()));
    assert_eq!(home_dir(None, None), None);
}

#[test]
fn timestamps_are_shown_in_utc() {
    assert_eq!(format_datetime_from_timestamp(947638923004), "2000-01-12 01:02:03");
    assert_eq!(format_datetime_from_timestamp(i64::MAX), "invalid time");
}

fn version(v: &str) -> Version {
    Version { version: v.to_string(), note: "n".to_string(), title: "t".to_string(), created_at: 0 }
}

#[test]
fn render_versions() {
    assert_eq!(version("v1").render(), "[1970-01-01 00:00:00] - (v1):\"t\" - \"n\"");
    let vs = Versions { count: 2, items: vec![version("a"), version("b")] };
    assert_eq!(
        vs.render(),
        "  1. [1970-01-01 00:00:00] - (a):\"t\" - \"n\"\n  2. [1970-01-01 00:00:00] - (b):\"t\" - \"n\"\n"
    );
}

#[test]
fn render_articles() {
    let cat = Category { slug: "tech".to_string(), name: "Tech".to_string() };
    assert_eq!(cat.render(), "Tech(tech)");
    let a = ArticleMetadata {
        uri: "hello".to_string(),
        tags: vec![],
        created_at: 947638923004,
        version: "v1".to_string(),
        visibility: true,
        category: cat,
    };
    assert_eq!(a.render(), "[*] - [2000-01-12 01:02:03] hello:v1");
    let page = Articles { count: 1, page: 3, items: vec![a], next: false, prev: true };
    assert_eq!(
        page.render(),
        "1. [*] - [2000-01-12 01:02:03] hello:v1\n\ncurrent page: 3\nnext page: No\nprevious page: Yes"
    );
}
