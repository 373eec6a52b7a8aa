//! Typed routes for a client application, with a codec between each route
//! and its URL.

use vstd::prelude::*;

pub mod decimal;
pub mod manager;
pub mod url;

use crate::url::{prepend_path, segment_is, with_prefix, SearchView, Url, UrlSearch, UrlView};

verus! {

/// The application's routes.
#[derive(Debug, PartialEq, Eq)]
pub enum Routes {
    /// `/`
    Home,
    /// `/about`
    About,
    /// `/contacts`, or `/contacts?show-map` when the map is shown
    Contacts { show_map: Option<bool> },
    /// `/manager/...`
    Manager(manager::Routes),
}

/// An application route as seen in specifications.
pub enum RoutesView {
    Home,
    About,
    Contacts { show_map: Option<bool> },
    Manager(manager::RoutesView),
}

impl DeepView for Routes {
    type V = RoutesView;

    open spec fn deep_view(&self) -> RoutesView {
        match self {
            Routes::Home => RoutesView::Home,
            Routes::About => RoutesView::About,
            Routes::Contacts { show_map } => RoutesView::Contacts { show_map: *show_map },
            Routes::Manager(r) => RoutesView::Manager(r.deep_view()),
        }
    }
}

pub open spec fn kw_about() -> Seq<char> {
    "about"@
}

pub open spec fn kw_contacts() -> Seq<char> {
    "contacts"@
}

pub open spec fn kw_manager() -> Seq<char> {
    "manager"@
}

pub open spec fn key_show_map() -> Seq<char> {
    "show-map"@
}

/// The route a URL denotes, reading from its next unconsumed segment. The map
/// flag is set when its parameter is present, whatever its values.
pub open spec fn decode_spec(u: UrlView) -> Option<RoutesView> {
    match u.next_part() {
        None => Some(RoutesView::Home),
        Some(seg) => {
            if seg == kw_about() {
                Some(RoutesView::About)
            } else if seg == kw_contacts() {
                Some(
                    RoutesView::Contacts {
                        show_map: if u.search.contains_key(key_show_map()) {
                            Some(true)
                        } else {
                            None
                        },
                    },
                )
            } else if seg == kw_manager() {
                match manager::decode_spec(u.advanced()) {
                    Some(r) => Some(RoutesView::Manager(r)),
                    None => None,
                }
            } else {
                None
            }
        },
    }
}

/// The URL of a route. A set map flag is written as its parameter with one
/// empty value; an unset or false flag is left out.
pub open spec fn encode_spec(r: RoutesView) -> UrlView {
    match r {
        RoutesView::Home => UrlView::fresh(seq![], SearchView::empty()),
        RoutesView::About => UrlView::fresh(seq![kw_about()], SearchView::empty()),
        RoutesView::Contacts { show_map } => UrlView::fresh(
            seq![kw_contacts()],
            if show_map == Some(true) {
                SearchView::empty().insert(key_show_map(), seq![Seq::<char>::empty()])
            } else {
                SearchView::empty()
            },
        ),
        RoutesView::Manager(r) => with_prefix(seq![kw_manager()], manager::encode_spec(r)),
    }
}

impl Routes {
    /// Decodes a URL into a route, or `None` when it names none.
    pub fn from_url(url: Url) -> (r: Option<Routes>)
        requires
            url.wf(),
        ensures
            r.deep_view() == decode_spec(url@),
    {
        let mut url = url;
        match url.next_path_part() {
            None => Some(Routes::Home),
            Some(seg) => {
                if segment_is(&seg, "about") {
                    Some(Routes::About)
                } else if segment_is(&seg, "contacts") {
                    let show_map = if url.search().contains_key("show-map") {
                        Some(true)
                    } else {
                        None
                    };
                    Some(Routes::Contacts { show_map })
                } else if segment_is(&seg, "manager") {
                    match manager::Routes::from_url(url) {
                        Some(r) => Some(Routes::Manager(r)),
                        None => None,
                    }
                } else {
                    None
                }
            },
        }
    }

    /// The URL of this route.
    pub fn to_url(&self) -> (r: Url)
        ensures
            r.wf(),
            r@ == encode_spec(self.deep_view()),
    {
        match self {
            Routes::Home => Url::new(),
            Routes::About => {
                let r = Url::new().add_path_part("about".to_owned());
                assert(r@.path =~= seq![kw_about()]);
                r
            },
            Routes::Contacts { show_map } => {
                let url = Url::new().add_path_part("contacts".to_owned());
                assert(url@.path =~= seq![kw_contacts()]);
                if let Some(true) = show_map {
                    let mut search = UrlSearch::new();
                    search.push_value("show-map".to_owned(), String::new());
                    url.set_search(search)
                } else {
                    url
                }
            },
            Routes::Manager(r) => {
                let prefix = vec!["manager".to_owned()];
                assert(prefix.deep_view() =~= seq![kw_manager()]);
                prepend_path(prefix, r.to_url())
            },
        }
    }
}

/// Decoding the URL of a route gives that route back, for every route but a
/// map flag set to false, which is written as no flag at all.
pub proof fn lemma_round_trip(r: Routes)
    requires
        r != (Routes::Contacts { show_map: Some(false) }),
    ensures
        decode_spec(encode_spec(r.deep_view())) == Some(r.deep_view()),
{
    reveal_strlit("about");
    reveal_strlit("contacts");
    reveal_strlit("manager");
    reveal_strlit("show-map");
    assert(kw_about() != kw_contacts()) by {
        assert(kw_about().len() != kw_contacts().len());
    }
    assert(kw_about() != kw_manager()) by {
        assert(kw_about().len() != kw_manager().len());
    }
    assert(kw_contacts() != kw_manager()) by {
        assert(kw_contacts()[0] != kw_manager()[0]);
    }
    let u = encode_spec(r.deep_view());
    match r {
        Routes::Home => {},
        Routes::About => {
            assert(u.next_part() == Some(kw_about()));
        },
        Routes::Contacts { show_map } => {
            assert(u.next_part() == Some(kw_contacts()));
            match show_map {
                Some(b) => {
                    assert(b);
                    assert(u.search.contains_key(key_show_map()));
                },
                None => {
                    assert(!u.search.contains_key(key_show_map()));
                },
            }
        },
        Routes::Manager(inner) => {
            let child = manager::encode_spec(inner.deep_view());
            assert(u.next_part() == Some(kw_manager()));
            assert(u.advanced().remaining() =~= child.remaining());
            manager::lemma_decode_same_rest(u.advanced(), child);
            manager::lemma_round_trip(inner);
        },
    }
}

/// A URL with no segment left decodes to the home route.
pub proof fn lemma_default_path(u: UrlView)
    requires
        u.cursor >= u.path.len(),
    ensures
        decode_spec(u) == Some(RoutesView::Home),
{
}

/// A next segment that is no keyword of this level decodes to nothing.
pub proof fn lemma_unknown_segment(u: UrlView, seg: Seq<char>)
    requires
        u.next_part() == Some(seg),
        seg != kw_about(),
        seg != kw_contacts(),
        seg != kw_manager(),
    ensures
        decode_spec(u) is None,
{
}

/// The contacts route with its map parameter absent decodes with no flag, and
/// the contacts route with no flag encodes without that parameter.
pub proof fn lemma_show_map_absent(u: UrlView)
    requires
        u.next_part() == Some(kw_contacts()),
        !u.search.contains_key(key_show_map()),
    ensures
        decode_spec(u) == Some(RoutesView::Contacts { show_map: None }),
        !encode_spec(RoutesView::Contacts { show_map: None }).search.contains_key(key_show_map()),
{
    reveal_strlit("about");
    reveal_strlit("contacts");
    assert(kw_about() != kw_contacts()) by {
        assert(kw_about().len() != kw_contacts().len());
    }
}

/// The map parameter present with any values, an empty one included, sets the
/// flag; a set flag encodes as the parameter with one empty value.
pub proof fn lemma_show_map_flag(u: UrlView)
    requires
        u.next_part() == Some(kw_contacts()),
        u.search.contains_key(key_show_map()),
    ensures
        decode_spec(u) == Some(RoutesView::Contacts { show_map: Some(true) }),
        encode_spec(RoutesView::Contacts { show_map: Some(true) }).search == SearchView::empty().insert(
            key_show_map(),
            seq![Seq::<char>::empty()],
        ),
{
    reveal_strlit("about");
    reveal_strlit("contacts");
    assert(kw_about() != kw_contacts()) by {
        assert(kw_about().len() != kw_contacts().len());
    }
}

} // verus!
