use blc::api::{
    bearer, delete_article, delete_article_version, get_article_list, get_article_version_list,
    initializetion_article, login, set_article_category, set_article_tags, set_article_version,
    set_article_visibility, upload_new_version, url, Body, Method,
};
use blc::cli::{set_requests, ArticleOption};
use blc::text::{decimal, split_items};

fn json_of(b: &Body) -> &str {
    match b {
        Body::Json(s) => s.as_str(),
        other => panic!("not json: {:?}", other),
    }
}

#[test]
fn list_query_without_tags() {
    let r = get_article_list(2, Some(10), Some("tech"), None);
    assert_eq!(r.method, Method::Get);
    assert_eq!(r.path, "/author/articles?page=2&limit=10&category=tech");
    assert!(!r.path.contains("&tags="));
}

#[test]
fn list_query_all_filters() {
    let r = get_article_list(1, None, None, Some("x,y"));
    assert_eq!(r.path, "/author/articles?page=1&tags=x,y");
    let r = get_article_list(4294967295, Some(0), Some("c"), Some("t"));
    assert_eq!(r.path, "/author/articles?page=4294967295&limit=0&category=c&tags=t");
}

#[test]
fn tags_are_split_and_trimmed() {
    assert_eq!(split_items("a, b ,c"), vec!["a", "b", "c"]);
    let r = set_article_tags("post", "a, b ,c");
    assert_eq!(r.method, Method::Patch);
    assert_eq!(r.path, "/articles/post/tags");
    assert_eq!(json_of(&r.body), "{\"tags\":[\"a\",\"b\",\"c\"]}");
}

#[test]
fn empty_tag_items_are_kept() {
    assert_eq!(split_items("a,,b,"), vec!["a", "", "b", ""]);
    assert_eq!(split_items(""), vec![""]);
    assert_eq!(split_items(" \t x \u{3000}"), vec!["x"]);
}

#[test]
fn decimal_text() {
    assert_eq!(decimal(0), "0");
    assert_eq!(decimal(1234), "1234");
    assert_eq!(decimal(u64::MAX), "18446744073709551615");
}

#[test]
fn login_request() {
    let r = login("p\"w");
    assert_eq!(r.method, Method::Post);
    assert_eq!(r.path, "/authentication");
    assert_eq!(json_of(&r.body), "{\"password\":\"p\\\"w\"}");
}

#[test]
fn article_requests() {
    let r = initializetion_article("hello", "tech");
    assert_eq!((r.method, r.path.as_str()), (Method::Post, "/articles"));
    assert_eq!(json_of(&r.body), "{\"uri\":\"hello\",\"category\":\"tech\"}");

    let r = delete_article("hello");
    assert_eq!((r.method, r.path.as_str()), (Method::Delete, "/articles/hello"));
    assert!(matches!(r.body, Body::Empty));

    let r = delete_article_version("hello", "v2");
    assert_eq!((r.method, r.path.as_str()), (Method::Delete, "/articles/hello/versions/v2"));

    let r = get_article_version_list("hello");
    assert_eq!((r.method, r.path.as_str()), (Method::Get, "/articles/hello/versions"));

    let r = set_article_visibility("hello", false);
    assert_eq!((r.method, r.path.as_str()), (Method::Patch, "/articles/hello/visibility"));
    assert_eq!(json_of(&r.body), "{\"visibility\":false}");

    let r = set_article_category("hello", "life");
    assert_eq!((r.method, r.path.as_str()), (Method::Patch, "/articles/hello/category"));
    assert_eq!(json_of(&r.body), "{\"category\":\"life\"}");

    let r = set_article_version("hello", "v3");
    assert_eq!((r.method, r.path.as_str()), (Method::Put, "/articles/hello/tags"));
    assert_eq!(json_of(&r.body), "{\"version\":\"v3\"}");
}

#[test]
fn upload_request_defaults_file_name() {
    let r = upload_new_version("post", None, vec![1, 2]);
    assert_eq!((r.method, r.path.as_str()), (Method::Post, "/articles/post/versions"));
    match r.body {
        Body::Upload { field, file_name, content } => {
            assert_eq!(field, "content");
            assert_eq!(file_name, "default.md");
            assert_eq!(content, vec![1, 2]);
        }
        other => panic!("unexpected {:?}", other),
    }
    let r = upload_new_version("post", Some("a.md".to_string()), vec![]);
    assert!(matches!(r.body, Body::Upload { ref file_name, .. } if file_name == "a.md"));
}

#[test]
fn url_and_bearer() {
    let r = delete_article("x");
    assert_eq!(url("https://api.example", &r), "https://api.example/articles/x");
    assert_eq!(bearer("tok"), "Bearer tok");
}

#[test]
fn set_steps_in_fixed_order() {
    let o = ArticleOption {
        public: true,
        private: false,
        category: Some("c".to_string()),
        tags: Some("t1, t2".to_string()),
        version: Some("v".to_string()),
    };
    let steps = set_requests("a", &o);
    let paths: Vec<&str> = steps.iter().map(|r| r.path.as_str()).collect();
    assert_eq!(
        paths,
        vec!["/articles/a/visibility", "/articles/a/tags", "/articles/a/category", "/articles/a/tags"]
    );
    assert_eq!(json_of(&steps[0].body), "{\"visibility\":true}");
    assert_eq!(json_of(&steps[1].body), "{\"tags\":[\"t1\",\"t2\"]}");
    assert_eq!(steps[3].method, Method::Put);
}

#[test]
fn set_with_nothing_sends_nothing() {
    let o = ArticleOption { public: false, private: false, category: None, tags: None, version: None };
    assert!(set_requests("a", &o).is_empty());
}

#[test]
fn json_bodies_escape_control_characters() {
    let r = set_article_category("a", "x\ny\\");
    assert_eq!(json_of(&r.body), "{\"category\":\"x\\ny\\\\\"}");
    let r = set_article_category("a", "\u{1}\u{1f}\u{8}é/");
    assert_eq!(json_of(&r.body), "{\"category\":\"\\u0001\\u001f\\bé/\"}");
}
