use fractal::invitee_list::{Invitee, InviteeList, InviteeListState, SearchRequest, SearchTicket};

fn user(id: &str, name: Option<&str>) -> Invitee {
    Invitee {
        user_id: id.to_owned(),
        display_name: name.map(|n| n.to_owned()),
        avatar_url: None,
    }
}

fn search(list: &mut InviteeList, term: &str) -> SearchTicket {
    match list.set_search_term(Some(term.to_owned())) {
        SearchRequest::Search(t) => {
            assert_eq!(t.term, term);
            t
        }
        other => panic!("unexpected request {:?}", other),
    }
}

fn searching(term: &str) -> (InviteeList, SearchTicket) {
    let mut list = InviteeList::new();
    let ticket = search(&mut list, term);
    (list, ticket)
}

#[test]
fn new_list_is_initial() {
    let list = InviteeList::new();
    assert_eq!(list.state(), InviteeListState::Initial);
    assert_eq!(list.search_term(), None);
    assert_eq!(list.n_items(), 0);
    assert!(!list.has_selected());
    assert_eq!(InviteeListState::default(), InviteeListState::Initial);
}

#[test]
fn search_term_starts_loading() {
    let (list, _) = searching("ali");
    assert_eq!(list.state(), InviteeListState::Loading);
    assert_eq!(list.search_term(), Some("ali".to_owned()));
}

#[test]
fn same_search_term_does_nothing() {
    let (mut list, _) = searching("ali");
    assert!(matches!(list.set_search_term(Some("ali".to_owned())), SearchRequest::Unchanged));
}

#[test]
fn empty_search_term_stops_loading() {
    let (mut list, _) = searching("ali");
    assert!(matches!(list.set_search_term(Some(String::new())), SearchRequest::NoSearch));
    assert_eq!(list.search_term(), None);
    assert_eq!(list.state(), InviteeListState::Initial);
}

#[test]
fn results_exclude_members() {
    let (mut list, ticket) = searching("a");
    let members = vec!["@member:x".to_owned()];
    let removed = list.finish_search(
        ticket,
        Ok(vec![user("@alice:x", Some("Alice")), user("@member:x", None), user("@anna:x", None)]),
        &members,
    );
    assert!(removed.is_empty());
    assert_eq!(list.state(), InviteeListState::Matching);
    assert_eq!(list.n_items(), 2);
    assert_eq!(list.item(0).unwrap().user_id, "@alice:x");
    assert_eq!(list.item(1).unwrap().user_id, "@anna:x");
    assert!(list.item(2).is_none());
}

#[test]
fn stale_results_are_dropped() {
    let (mut list, ticket) = searching("new");
    let old = SearchTicket { term: "old".to_owned(), id: ticket.id };
    let removed = list.finish_search(old, Ok(vec![user("@x:x", None)]), &vec![]);
    assert!(removed.is_empty());
    assert_eq!(list.state(), InviteeListState::Loading);
    assert_eq!(list.n_items(), 0);
}

#[test]
fn no_results_and_errors() {
    let (mut list, ticket) = searching("zzz");
    list.finish_search(ticket, Ok(vec![]), &vec![]);
    assert_eq!(list.state(), InviteeListState::NoMatching);
    let (mut failing, ticket) = searching("e");
    failing.finish_search(ticket, Err(()), &vec![]);
    assert_eq!(failing.state(), InviteeListState::Error);
    assert_eq!(failing.n_items(), 0);
}

#[test]
fn selecting_and_unselecting() {
    let mut list = InviteeList::new();
    list.add_invitee(user("@a:x", None));
    list.add_invitee(user("@b:x", None));
    list.add_invitee(user("@a:x", Some("A")));
    assert!(list.has_selected());
    let ids: Vec<String> = list.invitees().into_iter().map(|u| u.user_id).collect();
    assert_eq!(ids, vec!["@a:x".to_owned(), "@b:x".to_owned()]);
    assert_eq!(list.get_invitee(&"@a:x".to_owned()).unwrap().display_name, Some("A".to_owned()));
    let removed = list.remove_invitee(&"@a:x".to_owned()).unwrap();
    assert_eq!(removed.user_id, "@a:x");
    assert!(list.remove_invitee(&"@a:x".to_owned()).is_none());
    assert!(list.get_invitee(&"@a:x".to_owned()).is_none());
    list.remove_invitee(&"@b:x".to_owned());
    assert!(!list.has_selected());
}

#[test]
fn search_unselects_members_and_refreshes_profiles() {
    let (mut list, ticket) = searching("b");
    list.add_invitee(user("@bob:x", Some("Bob")));
    list.add_invitee(user("@bea:x", Some("Old")));
    let removed = list.finish_search(
        ticket,
        Ok(vec![user("@bob:x", Some("Bob")), user("@bea:x", Some("Bea"))]),
        &vec!["@bob:x".to_owned()],
    );
    assert_eq!(removed.len(), 1);
    assert_eq!(removed[0].user_id, "@bob:x");
    let selected = list.invitees();
    assert_eq!(selected.len(), 1);
    assert_eq!(selected[0].display_name, Some("Bea".to_owned()));
    assert_eq!(list.n_items(), 1);
}

#[test]
fn aborted_search_is_never_applied() {
    let (mut list, first) = searching("a");
    let _second = search(&mut list, "ab");
    let third = search(&mut list, "a");
    assert_ne!(first.id, third.id);
    list.finish_search(first, Ok(vec![user("@old:x", None)]), &vec![]);
    assert_eq!(list.state(), InviteeListState::Loading);
    assert_eq!(list.n_items(), 0);
    list.finish_search(third, Ok(vec![user("@new:x", None)]), &vec![]);
    assert_eq!(list.state(), InviteeListState::Matching);
    assert_eq!(list.item(0).unwrap().user_id, "@new:x");
}
