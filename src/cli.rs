//! The commands the client offers, and the ordered steps of `set`.
use vstd::prelude::*;
use crate::api::{
    category_req, set_article_category, set_article_tags, set_article_version,
    set_article_visibility, tags_req, version_req, visibility_req, Request, RequestView,
};

verus! {

/// A parsed command line.
#[derive(Debug)]
pub struct Cli {
    pub action: Action,
}

#[derive(Debug)]
pub enum Action {
    /// Logs in; the password is asked for on the terminal.
    Login,
    /// Forgets the stored credential.
    Logout,
    Init { category: String, uri: String },
    Upload { uri: String, path: String },
    Rm { uri: String, version: String },
    Delete { uri: String },
    /// Changes the properties of an article (the `set` command).
    SetOptions { uri: String, article_option: ArticleOption },
    List { page: Option<u32>, limit: Option<u32>, category: Option<String>, tags: Option<String> },
    Versions { uri: String },
}

/// The properties that `set` changes.
#[derive(Debug)]
pub struct ArticleOption {
    pub public: bool,
    pub private: bool,
    pub category: Option<String>,
    pub tags: Option<String>,
    pub version: Option<String>,
}

/// The requests of `set`, in the order in which they are sent: visibility
/// (public, then private), tags, category, version. Each is sent whatever
/// became of the ones before.
pub open spec fn set_plan(uri: Seq<char>, o: ArticleOption) -> Seq<RequestView> {
    (if o.public {
        seq![visibility_req(uri, true)]
    } else {
        Seq::<RequestView>::empty()
    }) + (if o.private {
        seq![visibility_req(uri, false)]
    } else {
        Seq::<RequestView>::empty()
    }) + match o.tags {
        Some(t) => seq![tags_req(uri, t@)],
        None => Seq::<RequestView>::empty(),
    } + match o.category {
        Some(c) => seq![category_req(uri, c@)],
        None => Seq::<RequestView>::empty(),
    } + match o.version {
        Some(v) => seq![version_req(uri, v@)],
        None => Seq::<RequestView>::empty(),
    }
}

pub open spec fn views_of(r: Seq<Request>) -> Seq<RequestView> {
    r.map_values(|q: Request| q@)
}

pub fn set_requests(uri: &str, o: &ArticleOption) -> (r: Vec<Request>)
    ensures
        views_of(r@) == set_plan(uri@, *o),
{
    let mut steps: Vec<Request> = Vec::new();
    let ghost mut want = Seq::<RequestView>::empty();
    if o.public {
        steps.push(set_article_visibility(uri, true));
        proof {
            want = want.push(visibility_req(uri@, true));
        }
    }
    if o.private {
        steps.push(set_article_visibility(uri, false));
        proof {
            want = want.push(visibility_req(uri@, false));
        }
    }
    if let Some(t) = &o.tags {
        steps.push(set_article_tags(uri, t.as_str()));
        proof {
            want = want.push(tags_req(uri@, t@));
        }
    }
    if let Some(c) = &o.category {
        steps.push(set_article_category(uri, c.as_str()));
        proof {
            want = want.push(category_req(uri@, c@));
        }
    }
    if let Some(v) = &o.version {
        steps.push(set_article_version(uri, v.as_str()));
        proof {
            want = want.push(version_req(uri@, v@));
        }
    }
    proof {
        assert(views_of(steps@) =~= want);
        assert(want =~= set_plan(uri@, *o));
    }
    steps
}

} // verus!
