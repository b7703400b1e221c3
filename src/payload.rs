//! The data that listing calls return, and how it is shown.
use vstd::prelude::*;
use crate::text::{decimal, decimal_of};

verus! {

/// How a point in time is written: date and time of day, in UTC.
pub const TIME_FORMAT: &'static str = "%Y-%m-%d %H:%M:%S";

/// The text that chrono makes of a millisecond timestamp under a format,
/// or `None` for a timestamp outside the range it covers.
pub uninterp spec fn utc_text(millis: i64, format: Seq<char>) -> Option<Seq<char>>;

/// Relies on chrono's `DateTime::from_timestamp_millis` and
/// `DateTime::format`: the UTC time of the timestamp, written under the
/// format; `None` where the timestamp is out of range. Only the library's
/// own format is admitted: under a format with an unknown specifier the
/// writing fails, and `to_string` panics on that.
#[verifier::external_body]
fn format_millis(millis: i64, format: &str) -> (r: Option<String>)
    requires
        format@ == TIME_FORMAT@,
    ensures
        match r {
            Some(s) => utc_text(millis, format@) == Some(s@),
            None => utc_text(millis, format@) is None,
        },
{
    match chrono::DateTime::from_timestamp_millis(millis) {
        Some(d) => Some(d.format(format).to_string()),
        None => None,
    }
}

/// How a timestamp is shown; one out of range is shown as such.
pub open spec fn time_shown(millis: i64) -> Seq<char> {
    match utc_text(millis, TIME_FORMAT@) {
        Some(s) => s,
        None => "invalid time"@,
    }
}

pub fn format_datetime_from_timestamp(millis: i64) -> (r: String)
    ensures
        r@ == time_shown(millis),
{
    match format_millis(millis, TIME_FORMAT) {
        Some(s) => s,
        None => "invalid time".to_owned(),
    }
}

pub open spec fn yes_no(b: bool) -> Seq<char> {
    if b {
        "Yes"@
    } else {
        "No"@
    }
}

#[derive(Debug)]
pub struct Category {
    pub slug: String,
    pub name: String,
}

#[derive(Debug)]
pub struct ArticleMetadata {
    pub uri: String,
    pub tags: Vec<String>,
    pub created_at: i64,
    pub version: String,
    pub visibility: bool,
    pub category: Category,
}

/// One page of the author's articles.
#[derive(Debug)]
pub struct Articles {
    pub count: u32,
    pub page: u32,
    pub items: Vec<ArticleMetadata>,
    pub next: bool,
    pub prev: bool,
}

#[derive(Debug)]
pub struct Version {
    pub version: String,
    pub note: String,
    pub title: String,
    pub created_at: i64,
}

/// The versions of one article.
#[derive(Debug)]
pub struct Versions {
    pub count: u32,
    pub items: Vec<Version>,
}

pub open spec fn category_text(c: Category) -> Seq<char> {
    c.name@ + "("@ + c.slug@ + ")"@
}

pub open spec fn article_text(a: ArticleMetadata) -> Seq<char> {
    "["@ + (if a.visibility {
        "*"@
    } else {
        " "@
    }) + "] - ["@ + time_shown(a.created_at) + "] "@ + a.uri@ + ":"@ + a.version@
}

pub open spec fn version_text(v: Version) -> Seq<char> {
    "["@ + time_shown(v.created_at) + "] - ("@ + v.version@ + "):\""@ + v.title@ + "\" - \""@
        + v.note@ + "\""@
}

/// The numbered lines of a page of articles, from 1.
pub open spec fn article_lines(items: Seq<ArticleMetadata>) -> Seq<char>
    decreases items.len(),
{
    if items.len() == 0 {
        Seq::<char>::empty()
    } else {
        article_lines(items.drop_last()) + decimal_of(items.len()) + ". "@ + article_text(
            items.last(),
        ) + "\n"@
    }
}

/// The numbered, indented lines of a version list, from 1.
pub open spec fn version_lines(items: Seq<Version>) -> Seq<char>
    decreases items.len(),
{
    if items.len() == 0 {
        Seq::<char>::empty()
    } else {
        version_lines(items.drop_last()) + "  "@ + decimal_of(items.len()) + ". "@ + version_text(
            items.last(),
        ) + "\n"@
    }
}

pub open spec fn articles_text(a: Articles) -> Seq<char> {
    article_lines(a.items@) + "\ncurrent page: "@ + decimal_of(a.page as nat) + "\nnext page: "@
        + yes_no(a.next) + "\nprevious page: "@ + yes_no(a.prev)
}

impl Category {
    pub fn render(&self) -> (r: String)
        ensures
            r@ == category_text(*self),
    {
        let mut s = self.name.clone();
        s.append("(");
        s.append(self.slug.as_str());
        s.append(")");
        s
    }
}

impl ArticleMetadata {
    pub fn render(&self) -> (r: String)
        ensures
            r@ == article_text(*self),
    {
        let mut s = "[".to_owned();
        s.append(if self.visibility { "*" } else { " " });
        s.append("] - [");
        s.append(format_datetime_from_timestamp(self.created_at).as_str());
        s.append("] ");
        s.append(self.uri.as_str());
        s.append(":");
        s.append(self.version.as_str());
        s
    }
}

impl Version {
    pub fn render(&self) -> (r: String)
        ensures
            r@ == version_text(*self),
    {
        let mut s = "[".to_owned();
        s.append(format_datetime_from_timestamp(self.created_at).as_str());
        s.append("] - (");
        s.append(self.version.as_str());
        s.append("):\"");
        s.append(self.title.as_str());
        s.append("\" - \"");
        s.append(self.note.as_str());
        s.append("\"");
        s
    }
}

impl Versions {
    pub fn render(&self) -> (r: String)
        ensures
            r@ == version_lines(self.items@),
    {
        let mut s = String::new();
        let mut i: usize = 0;
        while i < self.items.len()
            invariant
                i <= self.items@.len(),
                s@ == version_lines(self.items@.subrange(0, i as int)),
            decreases self.items@.len() - i,
        {
            proof {
                let next = self.items@.subrange(0, i + 1);
                assert(next.drop_last() =~= self.items@.subrange(0, i as int));
            }
            s.append("  ");
            s.append(decimal((i as u64) + 1).as_str());
            s.append(". ");
            s.append(self.items[i].render().as_str());
            s.append("\n");
            i = i + 1;
        }
        proof {
            assert(self.items@.subrange(0, i as int) =~= self.items@);
        }
        s
    }
}

impl Articles {
    pub fn render(&self) -> (r: String)
        ensures
            r@ == articles_text(*self),
    {
        let mut s = String::new();
        let mut i: usize = 0;
        while i < self.items.len()
            invariant
                i <= self.items@.len(),
                s@ == article_lines(self.items@.subrange(0, i as int)),
            decreases self.items@.len() - i,
        {
            proof {
                let next = self.items@.subrange(0, i + 1);
                assert(next.drop_last() =~= self.items@.subrange(0, i as int));
            }
            s.append(decimal((i as u64) + 1).as_str());
            s.append(". ");
            s.append(self.items[i].render().as_str());
            s.append("\n");
            i = i + 1;
        }
        proof {
            assert(self.items@.subrange(0, i as int) =~= self.items@);
        }
        s.append("\ncurrent page: ");
        s.append(decimal(self.page as u64).as_str());
        s.append("\nnext page: ");
        s.append(if self.next { "Yes" } else { "No" });
        s.append("\nprevious page: ");
        s.append(if self.prev { "Yes" } else { "No" });
        s
    }
}

} // verus!
