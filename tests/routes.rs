use seed_routes::manager;
use seed_routes::url::{prepend_path, Url, UrlSearch};
use seed_routes::Routes;

/// Builds a URL from its textual form `/a/b?k=v&flag`.
fn url_of(text: &str) -> Url {
    let (path, query) = match text.split_once('?') {
        Some((p, q)) => (p, Some(q)),
        None => (text, None),
    };
    let mut url = Url::new();
    for part in path.split('/').filter(|p| !p.is_empty()) {
        url = url.add_path_part(part.to_string());
    }
    if let Some(query) = query {
        let mut search = UrlSearch::new();
        for pair in query.split('&').filter(|p| !p.is_empty()) {
            let (k, v) = pair.split_once('=').unwrap_or((pair, ""));
            search.push_value(k.to_string(), v.to_string());
        }
        url = url.set_search(search);
    }
    url
}

/// Writes a URL as `/a/b?k=v`, parameters sorted by name.
fn text_of(url: &Url) -> String {
    let mut out = format!("/{}", url.path().join("/"));
    let mut pairs: Vec<(String, String)> = Vec::new();
    for (k, vs) in url.search().entries() {
        for v in vs {
            pairs.push((k.clone(), v.clone()));
        }
    }
    pairs.sort_by(|a, b| a.0.cmp(&b.0));
    if !pairs.is_empty() {
        let parts: Vec<String> = pairs.iter().map(|(k, v)| format!("{}={}", k, v)).collect();
        out.push('?');
        out.push_str(&parts.join("&"));
    }
    out
}

fn users(r: manager::users::Routes) -> Routes {
    Routes::Manager(manager::Routes::Users(r))
}

#[test]
fn test_home() {
    let route = Routes::from_url(url_of("/")).unwrap();
    assert_eq!(route, Routes::Home);
    assert_eq!(text_of(&route.to_url()), "/");
}

#[test]
fn test_404() {
    assert_eq!(Routes::from_url(url_of("/404")), None);
}

#[test]
fn test_about() {
    let route = Routes::from_url(url_of("/about")).unwrap();
    assert_eq!(route, Routes::About);
    assert_eq!(text_of(&route.to_url()), "/about");
}

#[test]
fn test_contacts() {
    let route = Routes::from_url(url_of("/contacts")).unwrap();
    assert_eq!(route, Routes::Contacts { show_map: None });
    assert_eq!(text_of(&route.to_url()), "/contacts");
}

#[test]
fn test_contacts_with_search() {
    let route = Routes::from_url(url_of("/contacts?show-map")).unwrap();
    assert_eq!(route, Routes::Contacts { show_map: Some(true) });
    assert_eq!(text_of(&route.to_url()), "/contacts?show-map=");
}

#[test]
fn test_manager_dashboard() {
    let route = Routes::from_url(url_of("/manager")).unwrap();
    assert_eq!(route, Routes::Manager(manager::Routes::Dashboard));
    assert_eq!(text_of(&route.to_url()), "/manager");
}

#[test]
fn test_manager_users_list() {
    let route = Routes::from_url(url_of("/manager/users")).unwrap();
    assert_eq!(route, users(manager::users::Routes::List));
    assert_eq!(text_of(&route.to_url()), "/manager/users");
}

#[test]
fn test_manager_users_add() {
    let route = Routes::from_url(url_of("/manager/users/add")).unwrap();
    assert_eq!(route, users(manager::users::Routes::Add));
    assert_eq!(text_of(&route.to_url()), "/manager/users/add");
}

#[test]
fn test_manager_users_edit() {
    let route = Routes::from_url(url_of("/manager/users/edit/42")).unwrap();
    assert_eq!(route, users(manager::users::Routes::Edit { id: 42, groups: None }));
    assert_eq!(text_of(&route.to_url()), "/manager/users/edit/42");
}

#[test]
fn test_manager_users_edit_with_search() {
    let route = Routes::from_url(url_of("/manager/users/edit/42?groups=all")).unwrap();
    assert_eq!(
        route,
        users(manager::users::Routes::Edit { id: 42, groups: Some("all".to_string()) })
    );
    assert_eq!(text_of(&route.to_url()), "/manager/users/edit/42?groups=all");
}

#[test]
fn round_trip_of_every_variant() {
    let routes = vec![
        Routes::Home,
        Routes::About,
        Routes::Contacts { show_map: None },
        Routes::Contacts { show_map: Some(true) },
        Routes::Manager(manager::Routes::Dashboard),
        users(manager::users::Routes::List),
        users(manager::users::Routes::Add),
        users(manager::users::Routes::Edit { id: 0, groups: None }),
        users(manager::users::Routes::Edit { id: usize::MAX, groups: Some(String::new()) }),
        users(manager::users::Routes::Edit { id: 7, groups: Some("a b".to_string()) }),
    ];
    for r in routes {
        assert_eq!(Routes::from_url(r.to_url()), Some(r));
    }
}

#[test]
fn false_flag_is_written_as_no_flag() {
    let r = Routes::Contacts { show_map: Some(false) };
    assert_eq!(text_of(&r.to_url()), "/contacts");
    assert_eq!(Routes::from_url(r.to_url()), Some(Routes::Contacts { show_map: None }));
}

#[test]
fn default_path_at_every_level() {
    assert_eq!(manager::Routes::from_url(Url::new()), Some(manager::Routes::Dashboard));
    assert_eq!(manager::users::Routes::from_url(Url::new()), Some(manager::users::Routes::List));
    let mut url = url_of("/manager/users");
    assert_eq!(url.next_path_part(), Some("manager".to_string()));
    assert_eq!(url.next_path_part(), Some("users".to_string()));
    assert_eq!(manager::users::Routes::from_url(url), Some(manager::users::Routes::List));
}

#[test]
fn unknown_segments_fail_at_every_level() {
    assert_eq!(Routes::from_url(url_of("/About")), None);
    assert_eq!(Routes::from_url(url_of("/users")), None);
    assert_eq!(Routes::from_url(url_of("/manager/add")), None);
    assert_eq!(Routes::from_url(url_of("/manager/users/remove")), None);
    assert_eq!(manager::Routes::from_url(url_of("/manager")), None);
}

#[test]
fn flag_with_any_value_is_set() {
    for text in ["/contacts?show-map=", "/contacts?show-map=false", "/contacts?show-map=1&x=2"] {
        assert_eq!(Routes::from_url(url_of(text)), Some(Routes::Contacts { show_map: Some(true) }));
    }
    assert_eq!(
        Routes::from_url(url_of("/contacts?other=1")),
        Some(Routes::Contacts { show_map: None })
    );
}

#[test]
fn edit_id_must_parse() {
    assert_eq!(Routes::from_url(url_of("/manager/users/edit")), None);
    assert_eq!(Routes::from_url(url_of("/manager/users/edit/abc")), None);
    assert_eq!(Routes::from_url(url_of("/manager/users/edit/-1")), None);
    assert_eq!(Routes::from_url(url_of("/manager/users/edit/+")), None);
    assert_eq!(Routes::from_url(url_of("/manager/users/edit/99999999999999999999999")), None);
    assert_eq!(
        Routes::from_url(url_of("/manager/users/edit/+007")),
        Some(users(manager::users::Routes::Edit { id: 7, groups: None }))
    );
}

#[test]
fn edit_reads_first_group_value() {
    let mut url = url_of("/manager/users/edit/5?groups=x");
    let mut search = UrlSearch::new();
    search.push_value("groups".to_string(), "x".to_string());
    search.push_value("groups".to_string(), "y".to_string());
    url = url.set_search(search);
    assert_eq!(
        Routes::from_url(url),
        Some(users(manager::users::Routes::Edit { id: 5, groups: Some("x".to_string()) }))
    );
}

#[test]
fn edit_id_is_written_in_decimal() {
    let r = manager::users::Routes::Edit { id: 1234, groups: None };
    assert_eq!(r.to_url().path().clone(), vec!["edit".to_string(), "1234".to_string()]);
}

#[test]
fn next_path_part_walks_the_path() {
    let mut url = url_of("/a/b");
    assert_eq!(url.next_path_part(), Some("a".to_string()));
    assert_eq!(url.next_path_part(), Some("b".to_string()));
    assert_eq!(url.next_path_part(), None);
    assert_eq!(url.next_path_part(), None);
    assert_eq!(url.path().len(), 2);
}

#[test]
fn push_value_appends_to_existing_parameter() {
    let mut search = UrlSearch::new();
    assert!(!search.contains_key("k"));
    search.push_value("k".to_string(), "1".to_string());
    search.push_value("j".to_string(), "2".to_string());
    search.push_value("k".to_string(), "3".to_string());
    assert!(search.contains_key("k"));
    assert_eq!(search.get("k"), Some(&vec!["1".to_string(), "3".to_string()]));
    assert_eq!(search.get("j"), Some(&vec!["2".to_string()]));
    assert_eq!(search.get("z"), None);
    assert_eq!(search.entries().len(), 2);
}

#[test]
fn prepend_path_keeps_query_and_rewinds() {
    let mut child = url_of("/x/y?q=1");
    assert_eq!(child.next_path_part(), Some("x".to_string()));
    let mut url = prepend_path(vec!["a".to_string(), "b".to_string()], child);
    assert_eq!(text_of(&url), "/a/b/x/y?q=1");
    assert_eq!(url.next_path_part(), Some("a".to_string()));
}
