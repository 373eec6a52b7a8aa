use vstd::prelude::*;

verus! {

/// A query entry as seen in specifications: a parameter name and its values.
pub type EntryView = (Seq<char>, Seq<Seq<char>>);

/// The abstract query multi-map: parameter name to its ordered values.
pub type SearchView = Map<Seq<char>, Seq<Seq<char>>>;

pub open spec fn entry_view(e: (String, Vec<String>)) -> EntryView {
    (e.0@, e.1.deep_view())
}

/// The map described by a list of entries; later entries win on equal names.
pub open spec fn entries_map(es: Seq<EntryView>) -> SearchView
    decreases es.len(),
{
    if es.len() == 0 {
        Map::empty()
    } else {
        entries_map(es.drop_last()).insert(es.last().0, es.last().1)
    }
}

pub open spec fn keys_unique(es: Seq<EntryView>) -> bool {
    forall|i: int, j: int| 0 <= i < j < es.len() ==> es[i].0 != es[j].0
}

proof fn lemma_entries_map_absent(es: Seq<EntryView>, k: Seq<char>)
    requires
        forall|i: int| 0 <= i < es.len() ==> es[i].0 != k,
    ensures
        !entries_map(es).contains_key(k),
    decreases es.len(),
{
    if es.len() > 0 {
        lemma_entries_map_absent(es.drop_last(), k);
    }
}

proof fn lemma_entries_map_at(es: Seq<EntryView>, i: int)
    requires
        keys_unique(es),
        0 <= i < es.len(),
    ensures
        entries_map(es).contains_key(es[i].0),
        entries_map(es)[es[i].0] == es[i].1,
    decreases es.len(),
{
    if i < es.len() - 1 {
        lemma_entries_map_at(es.drop_last(), i);
    }
}

proof fn lemma_entries_map_update(es: Seq<EntryView>, i: int, v: Seq<Seq<char>>)
    requires
        keys_unique(es),
        0 <= i < es.len(),
    ensures
        entries_map(es.update(i, (es[i].0, v))) == entries_map(es).insert(es[i].0, v),
    decreases es.len(),
{
    let es2 = es.update(i, (es[i].0, v));
    if i == es.len() - 1 {
        assert(es2.drop_last() =~= es.drop_last());
        assert(entries_map(es2) =~= entries_map(es).insert(es[i].0, v));
    } else {
        assert(es2.drop_last() =~= es.drop_last().update(i, (es[i].0, v)));
        lemma_entries_map_update(es.drop_last(), i, v);
        assert(es.last().0 != es[i].0);
        assert(entries_map(es2) =~= entries_map(es).insert(es[i].0, v));
    }
}

/// The query parameters of a URL: each name maps to an ordered list of values.
pub struct UrlSearch {
    entries: Vec<(String, Vec<String>)>,
}

impl View for UrlSearch {
    type V = SearchView;

    closed spec fn view(&self) -> SearchView {
        entries_map(self.entries_view())
    }
}

impl UrlSearch {
    pub closed spec fn entries_view(&self) -> Seq<EntryView> {
        self.entries@.map_values(|e: (String, Vec<String>)| entry_view(e))
    }

    /// Every parameter name occurs in one entry only.
    pub closed spec fn wf(&self) -> bool {
        keys_unique(self.entries_view())
    }

    /// An empty set of query parameters.
    pub fn new() -> (r: UrlSearch)
        ensures
            r.wf(),
            r@ == SearchView::empty(),
    {
        let r = UrlSearch { entries: Vec::new() };
        assert(r.entries_view() =~= Seq::<EntryView>::empty());
        r
    }

    fn find(&self, key: &str) -> (r: Option<usize>)
        requires
            self.wf(),
        ensures
            r.is_none() <==> !self@.contains_key(key@),
            r matches Some(i) ==> i < self.entries@.len() && self.entries@[i as int].0@ == key@,
    {
        let target = key.to_owned();
        let mut i: usize = 0;
        while i < self.entries.len()
            invariant
                i <= self.entries@.len(),
                target@ == key@,
                self.wf(),
                forall|j: int| 0 <= j < i ==> self.entries_view()[j].0 != key@,
            decreases self.entries@.len() - i,
        {
            if self.entries[i].0 == target {
                proof {
                    lemma_entries_map_at(self.entries_view(), i as int);
                }
                return Some(i);
            }
            i = i + 1;
        }
        proof {
            lemma_entries_map_absent(self.entries_view(), key@);
        }
        None
    }

    /// Whether a parameter of this name is present, whatever its values.
    pub fn contains_key(&self, key: &str) -> (r: bool)
        requires
            self.wf(),
        ensures
            r == self@.contains_key(key@),
    {
        self.find(key).is_some()
    }

    /// The values of the named parameter, if it is present.
    pub fn get(&self, key: &str) -> (r: Option<&Vec<String>>)
        requires
            self.wf(),
        ensures
            r.is_some() == self@.contains_key(key@),
            r matches Some(v) ==> v.deep_view() == self@[key@],
    {
        match self.find(key) {
            Some(i) => {
                proof {
                    lemma_entries_map_at(self.entries_view(), i as int);
                }
                Some(&self.entries[i].1)
            },
            None => None,
        }
    }

    /// Appends a value to the named parameter, creating the parameter if it is absent.
    pub fn push_value(&mut self, key: String, value: String)
        requires
            old(self).wf(),
        ensures
            final(self).wf(),
            final(self)@ == old(self)@.insert(
                key@,
                if old(self)@.contains_key(key@) {
                    old(self)@[key@].push(value@)
                } else {
                    seq![value@]
                },
            ),
    {
        let ghost es = self.entries_view();
        match self.find(key.as_str()) {
            Some(i) => {
                proof {
                    lemma_entries_map_at(es, i as int);
                }
                let (k, mut vals) = self.entries.remove(i);
                vals.push(value);
                self.entries.insert(i, (k, vals));
                proof {
                    let nv = es[i as int].1.push(value@);
                    assert(vals.deep_view() =~= nv);
                    assert(self.entries_view() =~= es.update(i as int, (es[i as int].0, nv)));
                    lemma_entries_map_update(es, i as int, nv);
                }
            },
            None => {
                proof {
                    assert forall|j: int| 0 <= j < es.len() implies es[j].0 != key@ by {
                        if es[j].0 == key@ {
                            lemma_entries_map_at(es, j);
                        }
                    }
                }
                let ghost kv = key@;
                let vals = vec![value];
                self.entries.push((key, vals));
                proof {
                    assert(vals.deep_view() =~= seq![value@]);
                    assert(self.entries_view() =~= es.push((kv, seq![value@])));
                    assert(self.entries_view().drop_last() =~= es);
                }
            },
        }
    }

    /// The entries in the order their names were first added.
    pub fn entries(&self) -> (r: &Vec<(String, Vec<String>)>)
        ensures
            r@.map_values(|e: (String, Vec<String>)| entry_view(e)) == self.entries_view(),
    {
        &self.entries
    }
}

/// The first value of a query parameter, if the parameter is present with at least one value.
pub open spec fn first_value(s: SearchView, key: Seq<char>) -> Option<Seq<char>> {
    if s.contains_key(key) && s[key].len() > 0 {
        Some(s[key][0])
    } else {
        None
    }
}

/// Whether a path segment equals a keyword.
pub fn segment_is(seg: &String, keyword: &str) -> (r: bool)
    ensures
        r == (seg@ == keyword@),
{
    seg.eq(&keyword.to_owned())
}

/// A URL as seen in specifications: its path segments, how many of them were
/// consumed, and its query parameters.
pub struct UrlView {
    pub path: Seq<Seq<char>>,
    pub cursor: nat,
    pub search: SearchView,
}

impl UrlView {
    /// The next unconsumed path segment, if any.
    pub open spec fn next_part(self) -> Option<Seq<char>> {
        if self.cursor < self.path.len() {
            Some(self.path[self.cursor as int])
        } else {
            None
        }
    }

    /// The same URL with its next segment consumed (unchanged at the end of the path).
    pub open spec fn advanced(self) -> UrlView {
        if self.cursor < self.path.len() {
            UrlView { cursor: self.cursor + 1, ..self }
        } else {
            self
        }
    }

    /// The path segments not consumed yet.
    pub open spec fn remaining(self) -> Seq<Seq<char>> {
        self.path.skip(self.cursor as int)
    }

    /// Both URLs have their cursor within the path, the same segments left
    /// and the same query.
    pub open spec fn same_rest(self, other: UrlView) -> bool {
        &&& self.cursor <= self.path.len()
        &&& other.cursor <= other.path.len()
        &&& self.remaining() == other.remaining()
        &&& self.search == other.search
    }

    /// A URL with this path and query, and nothing consumed.
    pub open spec fn fresh(path: Seq<Seq<char>>, search: SearchView) -> UrlView {
        UrlView { path, cursor: 0, search }
    }
}

/// URLs with the same segments left read the same next segment, and stay
/// alike once it is consumed.
pub proof fn lemma_same_rest_step(u: UrlView, v: UrlView)
    requires
        u.same_rest(v),
    ensures
        u.next_part() == v.next_part(),
        u.advanced().same_rest(v.advanced()),
{
    assert(u.remaining().len() == v.remaining().len());
    if u.cursor < u.path.len() {
        assert(u.path[u.cursor as int] == u.remaining()[0]);
        assert(v.path[v.cursor as int] == v.remaining()[0]);
        assert(u.advanced().remaining() =~= u.remaining().skip(1));
        assert(v.advanced().remaining() =~= v.remaining().skip(1));
    }
}

/// A relative URL used for routing: path segments read through a cursor,
/// and query parameters.
pub struct Url {
    next_path_part_index: usize,
    path: Vec<String>,
    search: UrlSearch,
}

impl View for Url {
    type V = UrlView;

    closed spec fn view(&self) -> UrlView {
        UrlView {
            path: self.path.deep_view(),
            cursor: self.next_path_part_index as nat,
            search: self.search@,
        }
    }
}

impl Url {
    /// The cursor stays within the path, and the query is well formed.
    pub closed spec fn wf(&self) -> bool {
        &&& self.next_path_part_index <= self.path@.len()
        &&& self.search.wf()
    }

    /// A URL with an empty path and no query parameters.
    pub fn new() -> (r: Url)
        ensures
            r.wf(),
            r@ == UrlView::fresh(Seq::empty(), SearchView::empty()),
    {
        let r = Url { next_path_part_index: 0, path: Vec::new(), search: UrlSearch::new() };
        assert(r.path.deep_view() =~= Seq::<Seq<char>>::empty());
        r
    }

    /// Consumes and returns the next path segment, or `None` at the end of the path.
    pub fn next_path_part(&mut self) -> (r: Option<String>)
        requires
            old(self).wf(),
        ensures
            final(self).wf(),
            final(self)@ == old(self)@.advanced(),
            r matches Some(s) ==> old(self)@.next_part() == Some(s@),
            r is None ==> old(self)@.next_part() is None,
    {
        if self.next_path_part_index < self.path.len() {
            let s = self.path[self.next_path_part_index].clone();
            self.next_path_part_index = self.next_path_part_index + 1;
            Some(s)
        } else {
            None
        }
    }

    /// Appends a path segment.
    pub fn add_path_part(self, part: String) -> (r: Url)
        requires
            self.wf(),
        ensures
            r.wf(),
            r@ == (UrlView { path: self@.path.push(part@), ..self@ }),
    {
        let mut u = self;
        let ghost p = part@;
        u.path.push(part);
        assert(u.path.deep_view() =~= self@.path.push(p));
        u
    }

    /// Replaces the whole path and rewinds the cursor to its start.
    pub fn set_path(self, path: Vec<String>) -> (r: Url)
        requires
            self.wf(),
        ensures
            r.wf(),
            r@ == UrlView::fresh(path.deep_view(), self@.search),
    {
        Url { next_path_part_index: 0, path, search: self.search }
    }

    /// Replaces the query parameters.
    pub fn set_search(self, search: UrlSearch) -> (r: Url)
        requires
            self.wf(),
            search.wf(),
        ensures
            r.wf(),
            r@ == (UrlView { search: search@, ..self@ }),
    {
        Url { search, ..self }
    }

    /// All path segments, consumed or not.
    pub fn path(&self) -> (r: &Vec<String>)
        ensures
            r.deep_view() == self@.path,
    {
        &self.path
    }

    /// The query parameters.
    pub fn search(&self) -> (r: &UrlSearch)
        requires
            self.wf(),
        ensures
            r.wf(),
            r@ == self@.search,
    {
        &self.search
    }

    /// Gives up the URL and keeps its query parameters.
    pub fn into_search(self) -> (r: UrlSearch)
        requires
            self.wf(),
        ensures
            r.wf(),
            r@ == self@.search,
    {
        self.search
    }
}

/// The URL with `prefix` put in front of its path, the same query, and nothing consumed.
pub open spec fn with_prefix(prefix: Seq<Seq<char>>, u: UrlView) -> UrlView {
    UrlView::fresh(prefix + u.path, u.search)
}

/// Builds a URL whose path is `prefix` followed by all of `url`'s path, and
/// whose query parameters are `url`'s.
pub fn prepend_path(prefix: Vec<String>, url: Url) -> (r: Url)
    requires
        url.wf(),
    ensures
        r.wf(),
        r@ == with_prefix(prefix.deep_view(), url@),
{
    let mut path = prefix;
    let child = url.path();
    let mut i: usize = 0;
    while i < child.len()
        invariant
            i <= child@.len(),
            child.deep_view() == url@.path,
            path.deep_view() =~= prefix.deep_view() + child.deep_view().take(i as int),
        decreases child@.len() - i,
    {
        let ghost before = path.deep_view();
        let seg = child[i].clone();
        path.push(seg);
        assert(path.deep_view() =~= before.push(child.deep_view()[i as int]));
        i = i + 1;
        assert(child.deep_view().take(i as int) =~= child.deep_view().take(i - 1).push(
            child.deep_view()[i - 1],
        ));
    }
    assert(child.deep_view().take(i as int) =~= child.deep_view());
    Url::new().set_path(path).set_search(url.into_search())
}

} // verus!
