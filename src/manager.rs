use vstd::prelude::*;

pub mod users;

use crate::url::{lemma_same_rest_step, prepend_path, segment_is, with_prefix, SearchView, Url, UrlView};

verus! {

/// Routes of the manager section.
#[derive(Debug, PartialEq, Eq)]
pub enum Routes {
    /// `/`
    Dashboard,
    /// `/users/...`
    Users(users::Routes),
}

/// A manager route as seen in specifications.
pub enum RoutesView {
    Dashboard,
    Users(users::RoutesView),
}

impl DeepView for Routes {
    type V = RoutesView;

    open spec fn deep_view(&self) -> RoutesView {
        match self {
            Routes::Dashboard => RoutesView::Dashboard,
            Routes::Users(r) => RoutesView::Users(r.deep_view()),
        }
    }
}

pub open spec fn kw_users() -> Seq<char> {
    "users"@
}

/// The route a URL denotes at this level, reading from its next unconsumed segment.
pub open spec fn decode_spec(u: UrlView) -> Option<RoutesView> {
    match u.next_part() {
        None => Some(RoutesView::Dashboard),
        Some(seg) => {
            if seg == kw_users() {
                match users::decode_spec(u.advanced()) {
                    Some(r) => Some(RoutesView::Users(r)),
                    None => None,
                }
            } else {
                None
            }
        },
    }
}

/// The URL of a route at this level.
pub open spec fn encode_spec(r: RoutesView) -> UrlView {
    match r {
        RoutesView::Dashboard => UrlView::fresh(seq![], SearchView::empty()),
        RoutesView::Users(r) => with_prefix(seq![kw_users()], users::encode_spec(r)),
    }
}

impl Routes {
    /// Decodes the rest of a URL into a route of this level, or `None` when it
    /// names none.
    pub fn from_url(url: Url) -> (r: Option<Routes>)
        requires
            url.wf(),
        ensures
            r.deep_view() == decode_spec(url@),
    {
        let mut url = url;
        match url.next_path_part() {
            None => Some(Routes::Dashboard),
            Some(seg) => {
                if segment_is(&seg, "users") {
                    match users::Routes::from_url(url) {
                        Some(r) => Some(Routes::Users(r)),
                        None => None,
                    }
                } else {
                    None
                }
            },
        }
    }

    /// The URL of this route, relative to the manager section.
    pub fn to_url(&self) -> (r: Url)
        ensures
            r.wf(),
            r@ == encode_spec(self.deep_view()),
    {
        match self {
            Routes::Dashboard => Url::new(),
            Routes::Users(r) => {
                let prefix = vec!["users".to_owned()];
                assert(prefix.deep_view() =~= seq![kw_users()]);
                prepend_path(prefix, r.to_url())
            },
        }
    }
}

/// Decoding reads only the segments left and the query.
pub proof fn lemma_decode_same_rest(u: UrlView, v: UrlView)
    requires
        u.same_rest(v),
    ensures
        decode_spec(u) == decode_spec(v),
{
    lemma_same_rest_step(u, v);
    users::lemma_decode_same_rest(u.advanced(), v.advanced());
}

/// Decoding the URL of any manager route gives that route back.
pub proof fn lemma_round_trip(r: Routes)
    ensures
        decode_spec(encode_spec(r.deep_view())) == Some(r.deep_view()),
{
    if let Routes::Users(inner) = r {
        let child = users::encode_spec(inner.deep_view());
        let u = encode_spec(r.deep_view());
        assert(u.next_part() == Some(kw_users()));
        assert(u.advanced().remaining() =~= child.remaining());
        users::lemma_decode_same_rest(u.advanced(), child);
        users::lemma_round_trip(inner);
    }
}

/// A URL with no segment left decodes to the dashboard.
pub proof fn lemma_default_path(u: UrlView)
    requires
        u.cursor >= u.path.len(),
    ensures
        decode_spec(u) == Some(RoutesView::Dashboard),
{
}

/// A next segment that is no keyword of this level decodes to nothing.
pub proof fn lemma_unknown_segment(u: UrlView, seg: Seq<char>)
    requires
        u.next_part() == Some(seg),
        seg != kw_users(),
    ensures
        decode_spec(u) is None,
{
}

} // verus!
