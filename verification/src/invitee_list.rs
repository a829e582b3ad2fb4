//! The list of users matching the search term when inviting users to a room,
//! and the set of users selected for the invite.

use vstd::prelude::*;
use crate::text::same_text;

verus! {

/// The state of the search.
#[derive(Debug, Eq, PartialEq, Clone, Copy, Structural)]
pub enum InviteeListState {
    Initial,
    Loading,
    NoMatching,
    Matching,
    Error,
}

impl Default for InviteeListState {
    fn default() -> (s: Self)
        ensures
            s == InviteeListState::Initial,
    {
        InviteeListState::Initial
    }
}

/// A user that can be invited: a result of the user directory search.
#[derive(Debug)]
pub struct Invitee {
    pub user_id: String,
    pub display_name: Option<String>,
    pub avatar_url: Option<String>,
}

/// The abstract value of an invitee.
pub struct InviteeModel {
    pub user_id: Seq<char>,
    pub display_name: Option<Seq<char>>,
    pub avatar_url: Option<Seq<char>>,
}

/// The view of an optional string.
pub open spec fn opt_view(s: Option<String>) -> Option<Seq<char>> {
    match s {
        Some(t) => Some(t@),
        None => None,
    }
}

impl View for Invitee {
    type V = InviteeModel;

    open spec fn view(&self) -> InviteeModel {
        InviteeModel {
            user_id: self.user_id@,
            display_name: opt_view(self.display_name),
            avatar_url: opt_view(self.avatar_url),
        }
    }
}

fn clone_opt(s: &Option<String>) -> (c: Option<String>)
    ensures
        opt_view(c) == opt_view(*s),
{
    match s {
        Some(t) => Some(t.clone()),
        None => None,
    }
}

impl Clone for Invitee {
    fn clone(&self) -> (c: Self)
        ensures
            c@ == self@,
    {
        Invitee {
            user_id: self.user_id.clone(),
            display_name: clone_opt(&self.display_name),
            avatar_url: clone_opt(&self.avatar_url),
        }
    }
}

/// The views of a sequence of invitees.
pub open spec fn views(s: Seq<Invitee>) -> Seq<InviteeModel> {
    s.map_values(|i: Invitee| i@)
}

/// Whether an invitee with the given id is among `s`.
pub open spec fn has_id(s: Seq<InviteeModel>, id: Seq<char>) -> bool {
    exists|i: int| 0 <= i < s.len() && (#[trigger] s[i]).user_id == id
}

/// Whether no id occurs twice among `s`.
pub open spec fn distinct_ids(s: Seq<InviteeModel>) -> bool {
    forall|i: int, j: int| 0 <= i < j < s.len() ==> s[i].user_id != s[j].user_id
}

/// `s` without the invitee with the given id.
pub open spec fn without_id(s: Seq<InviteeModel>, id: Seq<char>) -> Seq<InviteeModel>
    decreases s.len(),
{
    if s.len() == 0 {
        s
    } else if s.last().user_id == id {
        without_id(s.drop_last(), id)
    } else {
        without_id(s.drop_last(), id).push(s.last())
    }
}

/// `s` with the invitee of the same id replaced by `user`.
pub open spec fn replace_id(s: Seq<InviteeModel>, user: InviteeModel) -> Seq<InviteeModel> {
    s.map_values(|m: InviteeModel| if m.user_id == user.user_id { user } else { m })
}

/// The selection after `user` was added: it takes the place of a selected
/// user with the same id, or comes last.
pub open spec fn with_invitee(s: Seq<InviteeModel>, user: InviteeModel) -> Seq<InviteeModel> {
    if has_id(s, user.user_id) {
        replace_id(s, user)
    } else {
        s.push(user)
    }
}

/// Whether `id` is the id of a member of the room.
pub open spec fn is_member(members: Seq<String>, id: Seq<char>) -> bool {
    exists|i: int| 0 <= i < members.len() && (#[trigger] members[i])@ == id
}

/// The search results that are listed: those that are not members already.
pub open spec fn listed_results(results: Seq<InviteeModel>, members: Seq<String>) -> Seq<InviteeModel>
    decreases results.len(),
{
    if results.len() == 0 {
        results
    } else if is_member(members, results.last().user_id) {
        listed_results(results.drop_last(), members)
    } else {
        listed_results(results.drop_last(), members).push(results.last())
    }
}

/// The selection after the search results were seen, in order: a selected
/// user that turned out to be a member is unselected, one that came again
/// takes the profile of the result.
pub open spec fn selection_after(
    selected: Seq<InviteeModel>,
    results: Seq<InviteeModel>,
    members: Seq<String>,
) -> Seq<InviteeModel>
    decreases results.len(),
{
    if results.len() == 0 {
        selected
    } else {
        let before = selection_after(selected, results.drop_last(), members);
        let r = results.last();
        if is_member(members, r.user_id) {
            without_id(before, r.user_id)
        } else if has_id(before, r.user_id) {
            replace_id(before, r)
        } else {
            before
        }
    }
}

/// The selected users that the search results unselected, in order.
pub open spec fn unselected_by(
    selected: Seq<InviteeModel>,
    results: Seq<InviteeModel>,
    members: Seq<String>,
) -> Seq<InviteeModel>
    decreases results.len(),
{
    if results.len() == 0 {
        Seq::<InviteeModel>::empty()
    } else {
        let before = selection_after(selected, results.drop_last(), members);
        let earlier = unselected_by(selected, results.drop_last(), members);
        let r = results.last();
        if is_member(members, r.user_id) && has_id(before, r.user_id) {
            earlier.push(
                before[choose|i: int| 0 <= i < before.len() && before[i].user_id == r.user_id],
            )
        } else {
            earlier
        }
    }
}

/// The abstract state of the list.
pub struct InviteeListModel {
    pub search_term: Option<Seq<char>>,
    pub state: InviteeListState,
    pub list: Seq<InviteeModel>,
    pub selected: Seq<InviteeModel>,
    /// The id of the latest search started.
    pub search_id: u64,
}

/// The id of the search started after the one with id `id`: ids count the
/// searches, wrapping around.
pub open spec fn next_search_id(id: u64) -> u64 {
    if id == u64::MAX {
        0
    } else {
        (id + 1) as u64
    }
}

/// A search of the user directory that was started: its term, and its id
/// among the searches of the list.
#[derive(Debug, Clone)]
pub struct SearchTicket {
    pub term: String,
    pub id: u64,
}

/// Whether the response to the search of `ticket` is to be applied to the
/// list: it is the latest search started, for the current term. The response
/// to an earlier search, which the later one aborted, never is.
pub open spec fn is_current_search(m: InviteeListModel, ticket: SearchTicket) -> bool {
    m.search_term == Some(ticket.term@) && m.search_id == ticket.id
}

/// What the search asks for after the search term changed.
#[derive(Debug)]
pub enum SearchRequest {
    /// The term did not change: nothing to do.
    Unchanged,
    /// There is no term to search for.
    NoSearch,
    /// Search the user directory for this term; an earlier search is to be
    /// aborted, and its response is never applied.
    Search(SearchTicket),
}

/// List of users matching the search term, and the users selected.
pub struct InviteeList {
    search_term: Option<String>,
    state: InviteeListState,
    list: Vec<Invitee>,
    selected: Vec<Invitee>,
    search_id: u64,
}

impl View for InviteeList {
    type V = InviteeListModel;

    closed spec fn view(&self) -> InviteeListModel {
        InviteeListModel {
            search_term: opt_view(self.search_term),
            state: self.state,
            list: views(self.list@),
            selected: views(self.selected@),
            search_id: self.search_id,
        }
    }
}

/// The well-formedness of the list: no user is selected twice, only a
/// matching search lists users, and the empty term is never kept.
pub open spec fn wf_model(m: InviteeListModel) -> bool {
    &&& distinct_ids(m.selected)
    &&& m.list.len() > 0 ==> m.state == InviteeListState::Matching
    &&& m.search_term matches Some(t) ==> t.len() > 0
}

impl InviteeList {
    #[verifier::type_invariant]
    closed spec fn inv(&self) -> bool {
        wf_model(self@)
    }

    /// An empty list with no search term.
    pub fn new() -> (list: Self)
        ensures
            list@.search_term is None,
            list@.state == InviteeListState::Initial,
            list@.list.len() == 0,
            list@.selected.len() == 0,
            list@.search_id == 0,
    {
        let l = InviteeList {
            search_term: None,
            state: InviteeListState::Initial,
            list: Vec::new(),
            selected: Vec::new(),
            search_id: 0,
        };
        assert(views(l.list@) =~= Seq::<InviteeModel>::empty());
        assert(views(l.selected@) =~= Seq::<InviteeModel>::empty());
        l
    }

    /// The search term.
    pub fn search_term(&self) -> (term: Option<String>)
        ensures
            opt_view(term) == self@.search_term,
            term matches Some(t) ==> t@.len() > 0,
    {
        proof {
            use_type_invariant(self);
        }
        clone_opt(&self.search_term)
    }

    /// The state of the search.
    pub fn state(&self) -> (state: InviteeListState)
        ensures
            state == self@.state,
    {
        self.state
    }

    /// The number of users listed.
    pub fn n_items(&self) -> (n: usize)
        ensures
            n == self@.list.len(),
            n > 0 ==> self@.state == InviteeListState::Matching,
    {
        proof {
            use_type_invariant(self);
        }
        self.list.len()
    }

    /// The user listed at the given position.
    pub fn item(&self, position: usize) -> (item: Option<Invitee>)
        ensures
            position < self@.list.len() ==> (item matches Some(u) && u@ == self@.list[position as int]),
            position >= self@.list.len() ==> item is None,
    {
        if position < self.list.len() {
            Some(self.list[position].clone())
        } else {
            None
        }
    }

    /// Whether the user has selected some users.
    pub fn has_selected(&self) -> (selected: bool)
        ensures
            selected == (self@.selected.len() > 0),
    {
        self.selected.len() > 0
    }

    /// The selected users.
    pub fn invitees(&self) -> (users: Vec<Invitee>)
        ensures
            views(users@) == self@.selected,
            distinct_ids(views(users@)),
    {
        proof {
            use_type_invariant(self);
        }
        let mut users: Vec<Invitee> = Vec::new();
        let mut i: usize = 0;
        while i < self.selected.len()
            invariant
                i <= self.selected.len(),
                views(users@) == views(self.selected@).take(i as int),
            decreases self.selected.len() - i,
        {
            let user = self.selected[i].clone();
            let ghost before = users@;
            users.push(user);
            assert(views(users@) =~= views(before).push(user@));
            assert(views(self.selected@).take(i + 1) =~= views(self.selected@).take(i as int).push(
                self.selected@[i as int]@,
            ));
            i += 1;
        }
        assert(views(self.selected@).take(self.selected@.len() as int) =~= views(self.selected@));
        users
    }

    /// The position among the selected users of the one with the given id.
    fn selected_position(&self, user_id: &String) -> (pos: Option<usize>)
        ensures
            pos matches Some(p) ==> p < self@.selected.len() && self@.selected[p as int].user_id
                == user_id@,
            pos is None ==> !has_id(self@.selected, user_id@),
    {
        position_of(&self.selected, user_id)
    }

    /// The selected user with the given id.
    pub fn get_invitee(&self, user_id: &String) -> (user: Option<Invitee>)
        ensures
            user matches Some(u) ==> u@.user_id == user_id@ && self@.selected.contains(u@),
            user is None ==> !has_id(self@.selected, user_id@),
    {
        match self.selected_position(user_id) {
            Some(p) => Some(self.selected[p].clone()),
            None => None,
        }
    }
}

/// Removing the invitee with the id of the one at `p` removes just that one.
proof fn lemma_without_id_at(s: Seq<InviteeModel>, p: int)
    requires
        distinct_ids(s),
        0 <= p < s.len(),
    ensures
        without_id(s, s[p].user_id) == s.remove(p),
    decreases s.len(),
{
    let id = s[p].user_id;
    if p == s.len() - 1 {
        lemma_without_id_absent(s.drop_last(), id);
        assert(s.remove(p) =~= s.drop_last());
    } else {
        assert(s.last().user_id != id);
        lemma_without_id_at(s.drop_last(), p);
        assert(s.drop_last()[p] == s[p]);
        assert(s.remove(p) =~= s.drop_last().remove(p).push(s.last()));
    }
}

/// Removing an id that is not there changes nothing.
proof fn lemma_without_id_absent(s: Seq<InviteeModel>, id: Seq<char>)
    requires
        !has_id(s, id),
    ensures
        without_id(s, id) == s,
    decreases s.len(),
{
    if s.len() > 0 {
        assert(s.last().user_id != id);
        assert(!has_id(s.drop_last(), id)) by {
            if has_id(s.drop_last(), id) {
                let i = choose|i: int| 0 <= i < s.drop_last().len() && (#[trigger] s.drop_last()[i]).user_id == id;
                assert(s[i].user_id == id);
            }
        }
        lemma_without_id_absent(s.drop_last(), id);
        assert(s.drop_last().push(s.last()) =~= s);
    }
}

/// Replacing the invitee of the same id as the one at `p` changes just that one.
proof fn lemma_replace_id_at(s: Seq<InviteeModel>, p: int, user: InviteeModel)
    requires
        distinct_ids(s),
        0 <= p < s.len(),
        s[p].user_id == user.user_id,
    ensures
        replace_id(s, user) == s.update(p, user),
{
    assert(replace_id(s, user) =~= s.update(p, user));
}

/// A selection stays without a repeated id.
proof fn lemma_distinct_remove(s: Seq<InviteeModel>, p: int)
    requires
        distinct_ids(s),
        0 <= p < s.len(),
    ensures
        distinct_ids(s.remove(p)),
{
    assert forall|i: int, j: int| 0 <= i < j < s.remove(p).len() implies s.remove(p)[i].user_id
        != s.remove(p)[j].user_id by {
        let a = if i < p { i } else { i + 1 };
        let b = if j < p { j } else { j + 1 };
        assert(s.remove(p)[i] == s[a]);
        assert(s.remove(p)[j] == s[b]);
    }
}

/// The position of the invitee with the given id.
fn position_of(users: &Vec<Invitee>, user_id: &String) -> (pos: Option<usize>)
    ensures
        pos matches Some(p) ==> p < users@.len() && views(users@)[p as int].user_id == user_id@,
        pos is None ==> !has_id(views(users@), user_id@),
{
    let mut i: usize = 0;
    while i < users.len()
        invariant
            i <= users.len(),
            forall|j: int| 0 <= j < i ==> views(users@)[j].user_id != user_id@,
        decreases users.len() - i,
    {
        if same_text(&users[i].user_id, user_id) {
            return Some(i);
        }
        i += 1;
    }
    None
}

/// Whether `id` is the id of a member of the room.
fn member_list_contains(members: &Vec<String>, id: &String) -> (found: bool)
    ensures
        found == is_member(members@, id@),
{
    let mut i: usize = 0;
    while i < members.len()
        invariant
            i <= members.len(),
            forall|j: int| 0 <= j < i ==> (#[trigger] members@[j])@ != id@,
        decreases members.len() - i,
    {
        if same_text(&members[i], id) {
            return true;
        }
        i += 1;
    }
    false
}

impl InviteeList {
    /// Unselect the user with the given id. Returns the user unselected, if
    /// it was selected.
    pub fn remove_invitee(&mut self, user_id: &String) -> (removed: Option<Invitee>)
        ensures
            final(self)@ == (InviteeListModel {
                selected: without_id(old(self)@.selected, user_id@),
                ..old(self)@
            }),
            removed matches Some(u) ==> (u@.user_id == user_id@ && old(self)@.selected.contains(
                u@,
            )),
            removed is None ==> !has_id(old(self)@.selected, user_id@),
    {
        proof {
            use_type_invariant(&*self);
        }
        match self.selected_position(user_id) {
            Some(p) => {
                proof {
                    lemma_without_id_at(self@.selected, p as int);
                    lemma_distinct_remove(self@.selected, p as int);
                }
                let mut selected = Vec::new();
                std::mem::swap(&mut selected, &mut self.selected);
                let ghost before = selected@;
                let user = selected.remove(p);
                assert(views(selected@) =~= views(before).remove(p as int));
                self.selected = selected;
                Some(user)
            },
            None => {
                proof {
                    lemma_without_id_absent(self@.selected, user_id@);
                }
                None
            },
        }
    }

    /// Select a user: it takes the place of a selected user with the same
    /// id, or comes last.
    pub fn add_invitee(&mut self, user: Invitee)
        ensures
            final(self)@ == (InviteeListModel {
                selected: with_invitee(old(self)@.selected, user@),
                ..old(self)@
            }),
    {
        proof {
            use_type_invariant(&*self);
        }
        let ghost u = user@;
        let pos = self.selected_position(&user.user_id);
        let mut selected = Vec::new();
        std::mem::swap(&mut selected, &mut self.selected);
        let ghost before = views(selected@);
        match pos {
            Some(p) => {
                proof {
                    lemma_replace_id_at(before, p as int, u);
                }
                selected.set(p, user);
                assert(views(selected@) =~= before.update(p as int, u));
                assert(has_id(before, u.user_id)) by {
                    assert(before[p as int].user_id == u.user_id);
                }
            },
            None => {
                selected.push(user);
                assert(views(selected@) =~= before.push(u));
            },
        }
        self.selected = selected;
    }

    /// Set the search term; an empty term is no term. Returns the search to
    /// start, if any: with a term the list is cleared and the search is
    /// loading; without one, a loading search goes back to the initial state.
    pub fn set_search_term(&mut self, search_term: Option<String>) -> (request: SearchRequest)
        ensures
            opt_view(search_term) == old(self)@.search_term ==> request is Unchanged
                && final(self)@ == old(self)@,
            opt_view(search_term) != old(self)@.search_term ==> ({
                let term = match search_term {
                    Some(t) => if t@.len() > 0 {
                        Some(t@)
                    } else {
                        None
                    },
                    None => None,
                };
                match term {
                    Some(t) => request matches SearchRequest::Search(r) && r.term@ == t && r.id
                        == next_search_id(old(self)@.search_id) && final(self)@ == (InviteeListModel {
                        search_term: Some(t),
                        state: InviteeListState::Loading,
                        list: Seq::<InviteeModel>::empty(),
                        search_id: next_search_id(old(self)@.search_id),
                        ..old(self)@
                    }),
                    None => request is NoSearch && final(self)@ == (InviteeListModel {
                        search_term: None,
                        state: if old(self)@.state == InviteeListState::Loading {
                            InviteeListState::Initial
                        } else {
                            old(self)@.state
                        },
                        ..old(self)@
                    }),
                }
            }),
    {
        proof {
            use_type_invariant(&*self);
        }
        let same = match (&search_term, &self.search_term) {
            (Some(a), Some(b)) => same_text(a, b),
            (None, None) => true,
            _ => false,
        };
        if same {
            return SearchRequest::Unchanged;
        }
        let term = match search_term {
            Some(t) => if t.as_str().is_empty() {
                None
            } else {
                Some(t)
            },
            None => None,
        };
        match term {
            Some(t) => {
                let term = t.clone();
                self.list = Vec::new();
                assert(views(self.list@) =~= Seq::<InviteeModel>::empty());
                self.search_term = Some(t);
                self.state = InviteeListState::Loading;
                self.search_id = if self.search_id == u64::MAX {
                    0
                } else {
                    self.search_id + 1
                };
                SearchRequest::Search(SearchTicket { term, id: self.search_id })
            },
            None => {
                self.search_term = None;
                if self.state == InviteeListState::Loading {
                    self.state = InviteeListState::Initial;
                }
                SearchRequest::NoSearch
            },
        }
    }
}

impl InviteeList {
    /// Take the response of the search of the given ticket. The response to a
    /// search that is not the latest, or not for the current term, is
    /// dropped. Results that are members of the room already
    /// are not listed, and are unselected if they were; a selected user that
    /// came again takes the profile of the result. Returns the users
    /// unselected, in order.
    pub fn finish_search(
        &mut self,
        ticket: SearchTicket,
        response: Result<Vec<Invitee>, ()>,
        members: &Vec<String>,
    ) -> (unselected: Vec<Invitee>)
        ensures
            !is_current_search(old(self)@, ticket) ==> unselected@.len() == 0 && final(self)@
                == old(self)@,
            is_current_search(old(self)@, ticket) ==> match response {
                Ok(results) => if results@.len() == 0 {
                    unselected@.len() == 0 && final(self)@ == (InviteeListModel {
                        state: InviteeListState::NoMatching,
                        list: Seq::<InviteeModel>::empty(),
                        ..old(self)@
                    })
                } else {
                    views(unselected@) == unselected_by(
                        old(self)@.selected,
                        views(results@),
                        members@,
                    ) && final(self)@ == (InviteeListModel {
                        state: InviteeListState::Matching,
                        list: listed_results(views(results@), members@),
                        selected: selection_after(old(self)@.selected, views(results@), members@),
                        ..old(self)@
                    })
                },
                Err(_) => unselected@.len() == 0 && final(self)@ == (InviteeListModel {
                    state: InviteeListState::Error,
                    list: Seq::<InviteeModel>::empty(),
                    ..old(self)@
                }),
            },
    {
        proof {
            use_type_invariant(&*self);
        }
        let current = match &self.search_term {
            Some(t) => same_text(t, &ticket.term) && self.search_id == ticket.id,
            None => false,
        };
        if !current {
            return Vec::new();
        }
        match response {
            Ok(results) => {
                if results.len() == 0 {
                    self.list = Vec::new();
                    assert(views(self.list@) =~= Seq::<InviteeModel>::empty());
                    self.state = InviteeListState::NoMatching;
                    return Vec::new();
                }
                let ghost sel0 = self@.selected;
                let ghost r = views(results@);
                let mut selected = Vec::new();
                std::mem::swap(&mut selected, &mut self.selected);
                let mut listed: Vec<Invitee> = Vec::new();
                let mut unselected: Vec<Invitee> = Vec::new();
                let mut i: usize = 0;
                assert(r.take(0) =~= Seq::<InviteeModel>::empty());
                assert(views(listed@) =~= Seq::<InviteeModel>::empty());
                assert(views(unselected@) =~= Seq::<InviteeModel>::empty());
                while i < results.len()
                    invariant
                        i <= results.len(),
                        r == views(results@),
                        views(selected@) == selection_after(sel0, r.take(i as int), members@),
                        distinct_ids(views(selected@)),
                        views(listed@) == listed_results(r.take(i as int), members@),
                        views(unselected@) == unselected_by(sel0, r.take(i as int), members@),
                    decreases results.len() - i,
                {
                    let item = results[i].clone();
                    let ghost before = views(selected@);
                    let ghost t1 = r.take(i + 1);
                    assert(t1.drop_last() == r.take(i as int));
                    assert(t1.last() == item@);
                    if member_list_contains(members, &item.user_id) {
                        match position_of(&selected, &item.user_id) {
                            Some(p) => {
                                proof {
                                    lemma_without_id_at(before, p as int);
                                    lemma_distinct_remove(before, p as int);
                                    let j = choose|j: int|
                                        0 <= j < before.len() && before[j].user_id
                                            == item@.user_id;
                                    if j != p as int {
                                        if j < p as int {
                                            assert(before[j].user_id != before[p as int].user_id);
                                        } else {
                                            assert(before[p as int].user_id != before[j].user_id);
                                        }
                                    }
                                }
                                let removed = selected.remove(p);
                                assert(views(selected@) =~= before.remove(p as int));
                                let ghost ub = views(unselected@);
                                unselected.push(removed);
                                assert(views(unselected@) =~= ub.push(before[p as int]));
                            },
                            None => {
                                proof {
                                    lemma_without_id_absent(before, item@.user_id);
                                }
                            },
                        }
                    } else {
                        match position_of(&selected, &item.user_id) {
                            Some(p) => {
                                proof {
                                    lemma_replace_id_at(before, p as int, item@);
                                }
                                selected.set(p, item.clone());
                                assert(views(selected@) =~= before.update(p as int, item@));
                                assert forall|a: int, b: int|
                                    0 <= a < b < views(selected@).len() implies views(
                                    selected@,
                                )[a].user_id != views(selected@)[b].user_id by {
                                    assert(before[a].user_id != before[b].user_id);
                                }
                            },
                            None => {},
                        }
                        let ghost lb = views(listed@);
                        listed.push(item);
                        assert(views(listed@) =~= lb.push(t1.last()));
                    }
                    i += 1;
                }
                assert(r.take(results@.len() as int) =~= r);
                self.selected = selected;
                self.state = InviteeListState::Matching;
                self.list = listed;
                unselected
            },
            Err(_) => {
                self.list = Vec::new();
                assert(views(self.list@) =~= Seq::<InviteeModel>::empty());
                self.state = InviteeListState::Error;
                Vec::new()
            },
        }
    }
}

} // verus!
