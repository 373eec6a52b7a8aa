use vstd::prelude::*;

use crate::decimal::{decimal_of, lemma_parse_decimal_of, parse_usize, parse_usize_spec, usize_to_string};
use crate::url::{first_value, lemma_same_rest_step, segment_is, SearchView, Url, UrlSearch, UrlView};

verus! {

/// Routes of the users section.
#[derive(Debug, PartialEq, Eq)]
pub enum Routes {
    /// `/`
    List,
    /// `/add`
    Add,
    /// `/edit/<id>`, with `?groups=<groups>` when `groups` is set
    Edit { id: usize, groups: Option<String> },
}

/// A users route as seen in specifications.
pub enum RoutesView {
    List,
    Add,
    Edit { id: usize, groups: Option<Seq<char>> },
}

impl DeepView for Routes {
    type V = RoutesView;

    open spec fn deep_view(&self) -> RoutesView {
        match self {
            Routes::List => RoutesView::List,
            Routes::Add => RoutesView::Add,
            Routes::Edit { id, groups } => RoutesView::Edit { id: *id, groups: groups.deep_view() },
        }
    }
}

pub open spec fn kw_add() -> Seq<char> {
    "add"@
}

pub open spec fn kw_edit() -> Seq<char> {
    "edit"@
}

pub open spec fn key_groups() -> Seq<char> {
    "groups"@
}

/// The route a URL denotes at this level, reading from its next unconsumed segment.
pub open spec fn decode_spec(u: UrlView) -> Option<RoutesView> {
    match u.next_part() {
        None => Some(RoutesView::List),
        Some(seg) => {
            if seg == kw_add() {
                Some(RoutesView::Add)
            } else if seg == kw_edit() {
                let v = u.advanced();
                match v.next_part() {
                    None => None,
                    Some(id_seg) => match parse_usize_spec(id_seg) {
                        None => None,
                        Some(id) => Some(
                            RoutesView::Edit { id, groups: first_value(v.search, key_groups()) },
                        ),
                    },
                }
            } else {
                None
            }
        },
    }
}

/// The URL of a route at this level.
pub open spec fn encode_spec(r: RoutesView) -> UrlView {
    match r {
        RoutesView::List => UrlView::fresh(seq![], SearchView::empty()),
        RoutesView::Add => UrlView::fresh(seq![kw_add()], SearchView::empty()),
        RoutesView::Edit { id, groups } => UrlView::fresh(
            seq![kw_edit(), decimal_of(id as nat)],
            match groups {
                Some(g) => SearchView::empty().insert(key_groups(), seq![g]),
                None => SearchView::empty(),
            },
        ),
    }
}

impl Routes {
    /// Decodes the rest of a URL into a route of this level, or `None` when it
    /// names none.
    pub fn from_url(url: Url) -> (r: Option<Routes>)
        requires
            url.wf(),
        ensures
            r.deep_view() == decode_spec(url@),
    {
        let mut url = url;
        match url.next_path_part() {
            None => Some(Routes::List),
            Some(seg) => {
                if segment_is(&seg, "add") {
                    Some(Routes::Add)
                } else if segment_is(&seg, "edit") {
                    match url.next_path_part() {
                        None => None,
                        Some(id_seg) => match parse_usize(id_seg.as_str()) {
                            None => None,
                            Some(id) => {
                                let groups = match url.search().get("groups") {
                                    Some(values) => {
                                        if values.len() > 0 {
                                            Some(values[0].clone())
                                        } else {
                                            None
                                        }
                                    },
                                    None => None,
                                };
                                Some(Routes::Edit { id, groups })
                            },
                        },
                    }
                } else {
                    None
                }
            },
        }
    }

    /// The URL of this route, relative to the users section.
    pub fn to_url(&self) -> (r: Url)
        ensures
            r.wf(),
            r@ == encode_spec(self.deep_view()),
    {
        match self {
            Routes::List => Url::new(),
            Routes::Add => {
                let r = Url::new().add_path_part("add".to_owned());
                assert(r@.path =~= seq![kw_add()]);
                r
            },
            Routes::Edit { id, groups } => {
                let url = Url::new().add_path_part("edit".to_owned()).add_path_part(
                    usize_to_string(*id),
                );
                assert(url@.path =~= seq![kw_edit(), decimal_of(*id as nat)]);
                match groups {
                    Some(g) => {
                        let mut search = UrlSearch::new();
                        search.push_value("groups".to_owned(), g.clone());
                        url.set_search(search)
                    },
                    None => url,
                }
            },
        }
    }
}

/// Decoding the URL of any users route gives that route back.
pub proof fn lemma_round_trip(r: Routes)
    ensures
        decode_spec(encode_spec(r.deep_view())) == Some(r.deep_view()),
{
    reveal_strlit("add");
    reveal_strlit("edit");
    reveal_strlit("groups");
    assert(kw_add() != kw_edit()) by {
        assert(kw_add().len() != kw_edit().len());
    }
    let u = encode_spec(r.deep_view());
    match r {
        Routes::List => {},
        Routes::Add => {
            assert(u.next_part() == Some(kw_add()));
        },
        Routes::Edit { id, groups } => {
            lemma_parse_decimal_of(id);
            assert(u.next_part() == Some(kw_edit()));
            assert(u.advanced().next_part() == Some(decimal_of(id as nat)));
            assert(first_value(u.search, key_groups()) == groups.deep_view());
        },
    }
}

/// Decoding reads only the segments left and the query.
pub proof fn lemma_decode_same_rest(u: UrlView, v: UrlView)
    requires
        u.same_rest(v),
    ensures
        decode_spec(u) == decode_spec(v),
{
    lemma_same_rest_step(u, v);
    lemma_same_rest_step(u.advanced(), v.advanced());
}

/// A URL with no segment left decodes to the list route.
pub proof fn lemma_default_path(u: UrlView)
    requires
        u.cursor >= u.path.len(),
    ensures
        decode_spec(u) == Some(RoutesView::List),
{
}

/// A next segment that is no keyword of this level decodes to nothing.
pub proof fn lemma_unknown_segment(u: UrlView, seg: Seq<char>)
    requires
        u.next_part() == Some(seg),
        seg != kw_add(),
        seg != kw_edit(),
    ensures
        decode_spec(u) is None,
{
}

/// Without a `groups` parameter an edit route decodes with no groups, and an
/// edit route with no groups encodes without that parameter.
pub proof fn lemma_groups_absent(u: UrlView, id: usize)
    requires
        !u.search.contains_key(key_groups()),
    ensures
        decode_spec(u) matches Some(RoutesView::Edit { groups, .. }) ==> groups is None,
        !encode_spec(RoutesView::Edit { id, groups: None }).search.contains_key(key_groups()),
{
}

} // verus!
