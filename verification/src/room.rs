//! The state of a room that the client keeps beside the SDK's room: its
//! category in the sidebar, its name, its inviter and its known members, and
//! the decisions taken when the user or the server changes them.

use vstd::prelude::*;
use crate::i18n::{is_msgid, translate, translation_of, Translations};
use crate::text::same_text;
use crate::unicode::{char_is_whitespace, is_whitespace};

verus! {

/// The category of a room in the sidebar.
#[derive(Debug, Clone, Copy, PartialEq, Eq, Structural)]
pub enum RoomType {
    Invited,
    Favorite,
    Normal,
    LowPriority,
    Left,
    /// A room that was replaced by a newer version of it.
    Outdated,
    /// A space, a room that groups other rooms.
    Space,
}

impl Default for RoomType {
    fn default() -> (t: Self)
        ensures
            t == RoomType::Normal,
    {
        RoomType::Normal
    }
}

/// The membership that the SDK's room struct stands for.
#[derive(Debug, Clone, Copy, PartialEq, Eq, Structural)]
pub enum MatrixRoomKind {
    Joined,
    Left,
    Invited,
}

/// How a room is highlighted in the sidebar.
#[allow(non_camel_case_types)]
#[derive(Debug, Clone, Copy, PartialEq, Eq, Structural)]
pub enum HighlightFlags {
    NONE,
    HIGHLIGHT,
    BOLD,
    HIGHLIGHT_BOLD,
}

/// The request that moving a room to another category sends to the homeserver.
#[derive(Debug, Clone, Copy, PartialEq, Eq, Structural)]
pub enum RoomRequest {
    AcceptInvitation,
    RejectInvitation,
    Leave,
    Join,
    /// The move needs no request (the tags are not set yet).
    NoRequest,
}

/// What `Room::set_category` did.
#[derive(Debug, Clone, Copy, PartialEq, Eq, Structural)]
pub enum CategoryChange {
    /// The room already was in that category.
    Unchanged,
    /// Rooms can't be moved to the invite category.
    Refused,
    /// The room moved; the request is to be sent, and if it fails the
    /// category is loaded again.
    Moved(RoomRequest),
}

/// The request sent to the homeserver when a room of the given kind moves to
/// the given category.
pub open spec fn spec_request_for(kind: MatrixRoomKind, category: RoomType) -> RoomRequest {
    match kind {
        MatrixRoomKind::Invited => match category {
            RoomType::Favorite | RoomType::Normal | RoomType::LowPriority => RoomRequest::AcceptInvitation,
            RoomType::Left => RoomRequest::RejectInvitation,
            _ => RoomRequest::NoRequest,
        },
        MatrixRoomKind::Joined => match category {
            RoomType::Left => RoomRequest::Leave,
            _ => RoomRequest::NoRequest,
        },
        MatrixRoomKind::Left => match category {
            RoomType::Favorite | RoomType::Normal | RoomType::LowPriority => RoomRequest::Join,
            _ => RoomRequest::NoRequest,
        },
    }
}

/// The request sent to the homeserver when a room of the given kind moves to
/// the given category.
pub fn request_for(kind: MatrixRoomKind, category: RoomType) -> (request: RoomRequest)
    ensures
        request == spec_request_for(kind, category),
{
    match kind {
        MatrixRoomKind::Invited => match category {
            RoomType::Invited => RoomRequest::NoRequest,
            RoomType::Favorite => RoomRequest::AcceptInvitation,
            RoomType::Normal => RoomRequest::AcceptInvitation,
            RoomType::LowPriority => RoomRequest::AcceptInvitation,
            RoomType::Left => RoomRequest::RejectInvitation,
            RoomType::Outdated => RoomRequest::NoRequest,
            RoomType::Space => RoomRequest::NoRequest,
        },
        MatrixRoomKind::Joined => match category {
            RoomType::Left => RoomRequest::Leave,
            _ => RoomRequest::NoRequest,
        },
        MatrixRoomKind::Left => match category {
            RoomType::Invited => RoomRequest::NoRequest,
            RoomType::Favorite => RoomRequest::Join,
            RoomType::Normal => RoomRequest::Join,
            RoomType::LowPriority => RoomRequest::Join,
            RoomType::Left => RoomRequest::NoRequest,
            RoomType::Outdated => RoomRequest::NoRequest,
            RoomType::Space => RoomRequest::NoRequest,
        },
    }
}

/// The abstract state of a room.
pub struct RoomModel {
    pub room_id: Seq<char>,
    pub kind: Option<MatrixRoomKind>,
    pub name: Option<Seq<char>>,
    pub category: RoomType,
    pub inviter: Option<Seq<char>>,
    pub members: Seq<Seq<char>>,
}

/// The state after `Room::set_category`, and what it did: nothing when the
/// room is in that category already, nothing but a refusal for the invite
/// category, else the room moves and the request for its kind is to be sent.
pub open spec fn spec_set_category(m: RoomModel, category: RoomType) -> (RoomModel, CategoryChange) {
    if m.category == category {
        (m, CategoryChange::Unchanged)
    } else if category == RoomType::Invited {
        (m, CategoryChange::Refused)
    } else {
        (
            RoomModel { category, ..m },
            CategoryChange::Moved(spec_request_for(m.kind->0, category)),
        )
    }
}

/// The tags of a joined room that decide its category.
#[derive(Debug, Clone, Copy, PartialEq, Eq, Structural)]
pub struct RoomTags {
    pub favorite: bool,
    pub low_priority: bool,
}

/// The category of a joined room, from its tags when they could be loaded.
pub open spec fn spec_category_from_tags(tags: Option<RoomTags>) -> RoomType {
    match tags {
        Some(t) => if t.favorite {
            RoomType::Favorite
        } else if t.low_priority {
            RoomType::LowPriority
        } else {
            RoomType::Normal
        },
        None => RoomType::Normal,
    }
}

/// The category of a room whose kind alone decides it.
pub open spec fn spec_category_of_kind(kind: MatrixRoomKind) -> Option<RoomType> {
    match kind {
        MatrixRoomKind::Joined => None,
        MatrixRoomKind::Invited => Some(RoomType::Invited),
        MatrixRoomKind::Left => Some(RoomType::Left),
    }
}

/// What `Room::load_category` did.
#[derive(Debug, Clone, Copy, PartialEq, Eq, Structural)]
pub enum CategoryLoad {
    /// The category was set from the kind of the room; whether it changed.
    Loaded(bool),
    /// The room is joined: its tags are to be loaded and given to
    /// `Room::apply_tags`.
    NeedsTags,
}


/// Whether no user id occurs twice.
pub open spec fn distinct_ids(ids: Seq<Seq<char>>) -> bool {
    forall|i: int, j: int| 0 <= i < j < ids.len() ==> ids[i] != ids[j]
}

/// The registry after `user_id` was looked up: the id is added at the end if it
/// was not there.
pub open spec fn with_member(members: Seq<Seq<char>>, user_id: Seq<char>) -> Seq<Seq<char>> {
    if members.contains(user_id) {
        members
    } else {
        members.push(user_id)
    }
}

/// The state that the client keeps of a room.
pub struct Room {
    room_id: String,
    kind: Option<MatrixRoomKind>,
    name: Option<String>,
    category: RoomType,
    inviter: Option<String>,
    members: Vec<String>,
}

impl View for Room {
    type V = RoomModel;

    closed spec fn view(&self) -> RoomModel {
        RoomModel {
            room_id: self.room_id@,
            kind: self.kind,
            name: match self.name {
                Some(n) => Some(n@),
                None => None,
            },
            category: self.category,
            inviter: match self.inviter {
                Some(n) => Some(n@),
                None => None,
            },
            members: self.members@.map_values(|m: String| m@),
        }
    }
}

impl Room {
    #[verifier::type_invariant]
    closed spec fn members_distinct(&self) -> bool {
        distinct_ids(self.members@.map_values(|m: String| m@))
    }

    /// A room with the given id, before the SDK's room struct is known.
    pub fn new(room_id: String) -> (room: Self)
        ensures
            room@.room_id == room_id@,
            room@.kind is None,
            room@.name is None,
            room@.category == RoomType::Normal,
            room@.inviter is None,
            room@.members.len() == 0,
    {
        let room = Room {
            room_id,
            kind: None,
            name: None,
            category: RoomType::Normal,
            inviter: None,
            members: Vec::new(),
        };
        assert(room.members@.map_values(|m: String| m@) =~= Seq::<Seq<char>>::empty());
        room
    }

    /// The id of the room.
    pub fn room_id(&self) -> (id: &String)
        ensures
            id@ == self@.room_id,
    {
        &self.room_id
    }

    /// The kind of the SDK's room struct, once it is known.
    pub fn kind(&self) -> (kind: Option<MatrixRoomKind>)
        ensures
            kind == self@.kind,
    {
        self.kind
    }

    /// Set the kind of the SDK's room struct that this room stands for.
    ///
    /// Returns whether it changed; only then are the members, the display
    /// name and the category to be loaded again.
    pub fn set_matrix_room(&mut self, kind: MatrixRoomKind) -> (changed: bool)
        ensures
            changed == (old(self)@.kind != Some(kind)),
            final(self)@ == (RoomModel { kind: Some(kind), ..old(self)@ }),
    {
        let changed = match self.kind {
            Some(MatrixRoomKind::Joined) => !matches!(kind, MatrixRoomKind::Joined),
            Some(MatrixRoomKind::Left) => !matches!(kind, MatrixRoomKind::Left),
            Some(MatrixRoomKind::Invited) => !matches!(kind, MatrixRoomKind::Invited),
            None => true,
        };
        proof {
            use_type_invariant(&*self);
        }
        if changed {
            self.kind = Some(kind);
        }
        changed
    }

    /// The category of the room.
    pub fn category(&self) -> (category: RoomType)
        ensures
            category == self@.category,
    {
        self.category
    }

    /// Set the category without telling the homeserver. Returns whether it
    /// changed.
    pub fn set_category_internal(&mut self, category: RoomType) -> (changed: bool)
        ensures
            changed == (old(self)@.category != category),
            final(self)@ == (RoomModel { category, ..old(self)@ }),
    {
        proof {
            use_type_invariant(&*self);
        }
        if self.category == category {
            return false;
        }
        self.category = category;
        true
    }

    /// Set the category of this room.
    ///
    /// The returned change says which request propagates the category to the
    /// homeserver. Rooms can't be moved to the invite category.
    pub fn set_category(&mut self, category: RoomType) -> (change: CategoryChange)
        requires
            old(self)@.kind is Some,
        ensures
            (final(self)@, change) == spec_set_category(old(self)@, category),
    {
        let kind = match self.kind {
            Some(kind) => kind,
            None => return CategoryChange::Unchanged,
        };
        if self.category == category {
            return CategoryChange::Unchanged;
        }
        if category == RoomType::Invited {
            return CategoryChange::Refused;
        }
        let request = request_for(kind, category);
        self.set_category_internal(category);
        CategoryChange::Moved(request)
    }

    /// Load the category from the kind of the SDK's room. A joined room takes
    /// its category from its tags, given later to `Room::apply_tags`.
    pub fn load_category(&mut self) -> (load: CategoryLoad)
        requires
            old(self)@.kind is Some,
        ensures
            spec_category_of_kind(old(self)@.kind->0) matches Some(c) ==> load
                == CategoryLoad::Loaded(old(self)@.category != c) && final(self)@ == (RoomModel {
                category: c,
                ..old(self)@
            }),
            spec_category_of_kind(old(self)@.kind->0) is None ==> load == CategoryLoad::NeedsTags
                && final(self)@ == old(self)@,
    {
        match self.kind {
            Some(MatrixRoomKind::Invited) => CategoryLoad::Loaded(
                self.set_category_internal(RoomType::Invited),
            ),
            Some(MatrixRoomKind::Left) => CategoryLoad::Loaded(
                self.set_category_internal(RoomType::Left),
            ),
            _ => CategoryLoad::NeedsTags,
        }
    }

    /// Set the category of a joined room from its tags, or from their absence
    /// when loading them failed. Returns whether it changed.
    pub fn apply_tags(&mut self, tags: Option<RoomTags>) -> (changed: bool)
        ensures
            changed == (old(self)@.category != spec_category_from_tags(tags)),
            final(self)@ == (RoomModel { category: spec_category_from_tags(tags), ..old(self)@ }),
    {
        let mut category = RoomType::Normal;
        if let Some(tags) = tags {
            if tags.favorite {
                category = RoomType::Favorite;
            } else if tags.low_priority {
                category = RoomType::LowPriority;
            }
        }
        self.set_category_internal(category)
    }

    /// How the room is highlighted, from its count of unread highlights.
    pub fn highlight(highlight_count: u64) -> (flags: HighlightFlags)
        ensures
            flags == (if highlight_count > 0 {
                HighlightFlags::HIGHLIGHT
            } else {
                HighlightFlags::NONE
            }),
    {
        if highlight_count > 0 {
            HighlightFlags::HIGHLIGHT
        } else {
            HighlightFlags::NONE
        }
    }

    /// The notification count shown for the room: the count of unread
    /// highlights where there is one, else the count of unread notifications.
    pub fn notification_count(highlight_count: u64, notification_count: u64) -> (count: u64)
        ensures
            count == (if highlight_count > 0 {
                highlight_count
            } else {
                notification_count
            }),
    {
        if highlight_count > 0 {
            highlight_count
        } else {
            notification_count
        }
    }
}

/// Whether `text` holds a character that is not white space.
pub open spec fn has_visible_char(text: Seq<char>) -> bool {
    exists|i: int| 0 <= i < text.len() && !char_is_whitespace(#[trigger] text[i])
}

/// The topic shown for a room: the topic when it holds something else than
/// white space.
pub open spec fn spec_shown_topic(topic: Option<String>) -> Option<String> {
    match topic {
        Some(t) => if has_visible_char(t@) {
            Some(t)
        } else {
            None
        },
        None => None,
    }
}

impl Room {
    /// The name of the room, or the translation of "Unknown" while it is not
    /// known.
    pub fn display_name(&self, translations: &Translations) -> (name: String)
        ensures
            self@.name matches Some(n) ==> name@ == n,
            self@.name is None ==> translation_of(translations@, "Unknown"@, name@),
    {
        match &self.name {
            Some(name) => name.clone(),
            None => {
                proof {
                    reveal_strlit("Unknown");
                }
                translate(translations, "Unknown")
            },
        }
    }

    /// Set the name of the room. Returns whether it changed: it does not when
    /// the new name is the one shown, which for a room without a name is the
    /// translation of "Unknown".
    pub fn set_display_name(&mut self, translations: &Translations, display_name: Option<String>) -> (changed: bool)
        ensures
            changed ==> final(self)@ == (RoomModel {
                name: match display_name {
                    Some(n) => Some(n@),
                    None => None,
                },
                ..old(self)@
            }),
            !changed ==> final(self)@ == old(self)@,
            display_name is None ==> changed,
            old(self)@.name matches Some(n) ==> (changed <==> !(display_name matches Some(d)
                && d@ == n)),
            (old(self)@.name is None && display_name is Some) ==> exists|unknown: Seq<char>|
                translation_of(translations@, "Unknown"@, unknown) && (changed <==> display_name->0@ != unknown),
    {
        let current = self.display_name(translations);
        if let Some(new_name) = &display_name {
            if same_text(new_name, &current) {
                return false;
            }
        }
        proof {
            use_type_invariant(&*self);
        }
        self.name = display_name;
        true
    }

    /// The topic shown for a room, from the topic that the server gave: none
    /// when it is empty or white space only.
    pub fn topic(topic: Option<String>) -> (shown: Option<String>)
        ensures
            shown == spec_shown_topic(topic),
    {
        match topic {
            Some(t) => {
                let mut visible = false;
                for c in it: t.as_str().chars()
                    invariant
                        it.seq() == t@,
                        visible == exists|i: int|
                            0 <= i < it.index() && !char_is_whitespace(#[trigger] t@[i]),
                {
                    if !is_whitespace(c) {
                        visible = true;
                    }
                }
                if visible {
                    Some(t)
                } else {
                    None
                }
            },
            None => None,
        }
    }

    /// The user who sent the invite to this room, when it is an invite.
    pub fn inviter(&self) -> (inviter: Option<&String>)
        ensures
            self@.inviter matches Some(i) ==> inviter matches Some(j) && j@ == i,
            self@.inviter is None ==> inviter is None,
    {
        self.inviter.as_ref()
    }

    /// Whether the user is a known member of this room.
    pub fn has_member(&self, user_id: &String) -> (found: bool)
        ensures
            found == self@.members.contains(user_id@),
    {
        let ghost ids = self.members@.map_values(|m: String| m@);
        let mut i: usize = 0;
        while i < self.members.len()
            invariant
                i <= self.members.len(),
                ids == self.members@.map_values(|m: String| m@),
                forall|j: int| 0 <= j < i ==> ids[j] != user_id@,
            decreases self.members.len() - i,
        {
            if same_text(&self.members[i], user_id) {
                assert(ids[i as int] == user_id@);
                return true;
            }
            i += 1;
        }
        proof {
            if ids.contains(user_id@) {
                let k = choose|k: int| 0 <= k < ids.len() && ids[k] == user_id@;
                assert(ids[k] != user_id@);
            }
        }
        false
    }

    /// Look up the room member with the given id, registering it when it is
    /// new. Returns whether it was new.
    pub fn member_by_id(&mut self, user_id: &String) -> (created: bool)
        ensures
            created == !old(self)@.members.contains(user_id@),
            final(self)@ == (RoomModel {
                members: with_member(old(self)@.members, user_id@),
                ..old(self)@
            }),
    {
        if self.has_member(user_id) {
            return false;
        }
        proof {
            use_type_invariant(&*self);
        }
        let ghost before = self.members@;
        let mut members = Vec::new();
        std::mem::swap(&mut members, &mut self.members);
        members.push(user_id.clone());
        proof {
            let ids = before.map_values(|m: String| m@);
            assert(members@.map_values(|m: String| m@) =~= ids.push(user_id@));
            assert forall|i: int, j: int|
                0 <= i < j < ids.push(user_id@).len() implies ids.push(user_id@)[i] != ids.push(
                user_id@,
            )[j] by {
                if j == ids.len() {
                    assert(ids[i] != user_id@);
                }
            }
        }
        self.members = members;
        true
    }
}

/// The membership that a room member event sets.
#[derive(Debug, Clone, Copy, PartialEq, Eq, Structural)]
pub enum MembershipState {
    Ban,
    Invite,
    Join,
    Knock,
    Leave,
    Other,
}

/// A stripped state event of an invite, with what the client reads of it.
#[derive(Debug, Clone)]
pub struct StrippedStateEvent {
    /// Whether it is a room member event; `membership` and `state_key` are
    /// only read when it is.
    pub is_room_member: bool,
    pub membership: MembershipState,
    pub state_key: String,
    pub sender: String,
}

/// Whether the event invites the user with the given id.
pub open spec fn invites_user(event: StrippedStateEvent, user_id: Seq<char>) -> bool {
    event.is_room_member && event.membership == MembershipState::Invite && event.state_key@
        == user_id
}

/// Whether the event is a room member event sent by the user with the given id.
pub open spec fn member_event_from(event: StrippedStateEvent, user_id: Seq<char>) -> bool {
    event.is_room_member && event.sender@ == user_id
}

/// Whether `i` is the index of the first event that invites the user.
pub open spec fn is_first_invite(events: Seq<StrippedStateEvent>, user_id: Seq<char>, i: int) -> bool {
    &&& 0 <= i < events.len()
    &&& invites_user(events[i], user_id)
    &&& forall|j: int| 0 <= j < i ==> !invites_user(#[trigger] events[j], user_id)
}

/// Whether `i` is the index of the first room member event sent by the user.
pub open spec fn is_first_member_event_from(
    events: Seq<StrippedStateEvent>,
    user_id: Seq<char>,
    i: int,
) -> bool {
    &&& 0 <= i < events.len()
    &&& member_event_from(events[i], user_id)
    &&& forall|j: int| 0 <= j < i ==> !member_event_from(#[trigger] events[j], user_id)
}

/// The index of the first event that invites the user with the given id.
pub fn find_invite_event(events: &Vec<StrippedStateEvent>, user_id: &String) -> (found: Option<usize>)
    ensures
        found matches Some(i) ==> is_first_invite(events@, user_id@, i as int),
        found is None ==> forall|j: int|
            0 <= j < events@.len() ==> !invites_user(#[trigger] events@[j], user_id@),
{
    let mut i: usize = 0;
    while i < events.len()
        invariant
            i <= events.len(),
            forall|j: int| 0 <= j < i ==> !invites_user(#[trigger] events@[j], user_id@),
        decreases events.len() - i,
    {
        let event = &events[i];
        if event.is_room_member && event.membership == MembershipState::Invite && same_text(
            &event.state_key,
            user_id,
        ) {
            return Some(i);
        }
        i += 1;
    }
    None
}

/// The index of the first room member event sent by the user with the given id.
pub fn find_member_event_from(events: &Vec<StrippedStateEvent>, user_id: &String) -> (found:
    Option<usize>)
    ensures
        found matches Some(i) ==> is_first_member_event_from(events@, user_id@, i as int),
        found is None ==> forall|j: int|
            0 <= j < events@.len() ==> !member_event_from(#[trigger] events@[j], user_id@),
{
    let mut i: usize = 0;
    while i < events.len()
        invariant
            i <= events.len(),
            forall|j: int| 0 <= j < i ==> !member_event_from(#[trigger] events@[j], user_id@),
        decreases events.len() - i,
    {
        let event = &events[i];
        if event.is_room_member && same_text(&event.sender, user_id) {
            return Some(i);
        }
        i += 1;
    }
    None
}

impl Room {
    /// Handle the stripped state events of an invite to the user with the
    /// given id: the sender of the first invite becomes the inviter. Returns
    /// the index of the inviter's own member event, which holds the profile to
    /// show.
    pub fn handle_invite_events(&mut self, events: &Vec<StrippedStateEvent>, own_user_id: &String) -> (inviter_event: Option<usize>)
        requires
            exists|i: int| 0 <= i < events@.len() && invites_user(#[trigger] events@[i], own_user_id@),
        ensures
            exists|i: int|
                is_first_invite(events@, own_user_id@, i) && final(self)@ == (RoomModel {
                    inviter: Some(events@[i].sender@),
                    ..old(self)@
                }) && (inviter_event matches Some(k) ==> is_first_member_event_from(
                    events@,
                    events@[i].sender@,
                    k as int,
                )) && (inviter_event is None ==> forall|j: int|
                    0 <= j < events@.len() ==> !member_event_from(
                        #[trigger] events@[j],
                        events@[i].sender@,
                    )),
    {
        let invite = find_invite_event(events, own_user_id);
        let i = match invite {
            Some(i) => i,
            None => {
                assert(false);
                return None;
            },
        };
        let inviter_id = events[i].sender.clone();
        let inviter_event = find_member_event_from(events, &inviter_id);
        proof {
            use_type_invariant(&*self);
        }
        self.inviter = Some(inviter_id);
        inviter_event
    }
}

/// A timeline event, with what the room reads of it.
#[derive(Debug, Clone)]
pub enum TimelineEvent {
    /// A room member state event, from the given sender.
    RoomMember { sender: String },
    /// A room avatar state event, with the new avatar's URL.
    RoomAvatar { url: Option<String> },
    /// A room name state event.
    RoomName,
    /// A room topic state event.
    RoomTopic,
    /// Any other event.
    Other,
}

/// What appending an event to the timeline asks of the room, besides adding
/// it to the timeline.
#[derive(Debug, Clone, PartialEq, Eq)]
pub enum EventEffect {
    /// Update the member who sent the member event.
    UpdateMember,
    /// Show the avatar at the given URL.
    SetAvatarUrl(Option<String>),
    /// Load the display name again.
    ReloadDisplayName,
    /// Tell that the topic changed.
    NotifyTopic,
    /// Nothing.
    NoEffect,
}

/// What appending the event asks of the room.
pub open spec fn spec_event_effect(event: TimelineEvent) -> EventEffect {
    match event {
        TimelineEvent::RoomMember { .. } => EventEffect::UpdateMember,
        TimelineEvent::RoomAvatar { url } => EventEffect::SetAvatarUrl(url),
        TimelineEvent::RoomName => EventEffect::ReloadDisplayName,
        TimelineEvent::RoomTopic => EventEffect::NotifyTopic,
        TimelineEvent::Other => EventEffect::NoEffect,
    }
}

/// The known members after the senders of the member events among `events`
/// were looked up, in order.
pub open spec fn members_after(members: Seq<Seq<char>>, events: Seq<TimelineEvent>) -> Seq<Seq<char>>
    decreases events.len(),
{
    if events.len() == 0 {
        members
    } else {
        let before = members_after(members, events.drop_last());
        match events.last() {
            TimelineEvent::RoomMember { sender } => with_member(before, sender@),
            _ => before,
        }
    }
}

/// What appending the event asks of the room.
pub fn event_effect(event: &TimelineEvent) -> (effect: EventEffect)
    ensures
        effect == spec_event_effect(*event),
{
    match event {
        TimelineEvent::RoomMember { .. } => EventEffect::UpdateMember,
        TimelineEvent::RoomAvatar { url } => EventEffect::SetAvatarUrl(url.clone()),
        TimelineEvent::RoomName => EventEffect::ReloadDisplayName,
        TimelineEvent::RoomTopic => EventEffect::NotifyTopic,
        TimelineEvent::Other => EventEffect::NoEffect,
    }
}

/// The kind of a message sent from the composer.
#[derive(Debug, Clone, Copy, PartialEq, Eq, Structural)]
pub enum MessageKind {
    Text,
    Emote,
}

/// A message to send, as the composer builds it.
#[derive(Debug, Clone)]
pub struct OutgoingMessage {
    pub kind: MessageKind,
    /// The body of the message, without the `/me ` command.
    pub body: String,
    /// The HTML rendered from the body as markdown, when markdown is
    /// enabled and the rendering is more than the body as a paragraph.
    pub formatted: Option<String>,
}

/// The HTML that `FormattedBody::markdown` renders a message body to, when
/// it is more than the body as a plain paragraph.
pub uninterp spec fn markdown_html(body: Seq<char>) -> Option<Seq<char>>;

/// Calls `FormattedBody::markdown` of the Matrix SDK, which renders the body
/// as markdown with pulldown-cmark and keeps the HTML when it is more than
/// the body as a plain paragraph. Claims that the result is the named result.
#[verifier::external_body]
fn render_markdown(body: &str) -> (html: Option<String>)
    ensures
        match html {
            Some(h) => markdown_html(body@) == Some(h@),
            None => markdown_html(body@) is None,
        },
{
    matrix_sdk::ruma::events::room::message::FormattedBody::markdown(body).map(|f| f.body)
}

/// The text of an optional string.
pub open spec fn opt_string_view(s: Option<String>) -> Option<Seq<char>> {
    match s {
        Some(t) => Some(t@),
        None => None,
    }
}

/// A message waiting to be sent: the transaction id that the server gets, the
/// id of the pending event that stands for it until the server answers, and
/// the message.
#[derive(Debug, Clone)]
pub struct PendingMessage {
    pub txn_id: String,
    pub pending_event_id: String,
    pub message: OutgoingMessage,
}

/// The command that makes a message an emote.
pub open spec fn emote_command() -> Seq<char> {
    seq!['/', 'm', 'e', ' ']
}

/// Whether `s` starts with `prefix`.
pub open spec fn starts_with(s: Seq<char>, prefix: Seq<char>) -> bool {
    s.len() >= prefix.len() && s.take(prefix.len() as int) == prefix
}

/// The message that the composer builds from a body: an emote when the body
/// starts with `/me `, without it, else a text; with markdown enabled, it
/// carries the HTML rendered from what follows the command.
pub open spec fn composed_message(body: Seq<char>, markdown: bool, message: OutgoingMessage) -> bool {
    &&& opt_string_view(message.formatted) == if markdown {
        markdown_html(message.body@)
    } else {
        None
    }
    &&& if starts_with(body, emote_command()) {
        message.kind == MessageKind::Emote && message.body@ == body.skip(4)
    } else {
        message.kind == MessageKind::Text && message.body@ == body
    }
}

/// Build the message for a body written in the composer.
pub fn compose_text_message(body: &str, markdown_enabled: bool) -> (message: OutgoingMessage)
    ensures
        composed_message(body@, markdown_enabled, message),
{
    let len = body.unicode_len();
    let is_emote = len >= 4 && body.get_char(0) == '/' && body.get_char(1) == 'm' && body.get_char(2)
        == 'e' && body.get_char(3) == ' ';
    assert(is_emote == starts_with(body@, emote_command())) by {
        if len >= 4 {
            assert(starts_with(body@, emote_command()) ==> body@.take(4)[0] == body@[0]
                && body@.take(4)[1] == body@[1] && body@.take(4)[2] == body@[2] && body@.take(4)[3]
                == body@[3]);
            if is_emote {
                assert(body@.take(4) =~= emote_command());
            }
        }
    }
    if is_emote {
        let rest = body.substring_char(4, len);
        assert(body@.subrange(4, len as int) == body@.skip(4));
        let formatted = if markdown_enabled {
            render_markdown(rest)
        } else {
            None
        };
        OutgoingMessage { kind: MessageKind::Emote, body: rest.to_owned(), formatted }
    } else {
        let formatted = if markdown_enabled {
            render_markdown(body)
        } else {
            None
        };
        OutgoingMessage { kind: MessageKind::Text, body: body.to_owned(), formatted }
    }
}

/// The events that could be read, in order.
pub open spec fn read_events<T>(events: Seq<Option<T>>) -> Seq<T>
    decreases events.len(),
{
    if events.len() == 0 {
        Seq::<T>::empty()
    } else {
        let before = read_events(events.drop_last());
        match events.last() {
            Some(e) => before.push(e),
            None => before,
        }
    }
}

/// Keep the events that could be read, in order.
pub fn keep_read_events<T>(events: Vec<Option<T>>) -> (kept: Vec<T>)
    ensures
        kept@ == read_events(events@),
{
    let ghost all = events@;
    let mut kept: Vec<T> = Vec::new();
    let mut rest = events;
    while rest.len() > 0
        invariant
            rest@.len() <= all.len(),
            kept@ == read_events(all.take(all.len() - rest@.len())),
            rest@ == all.skip(all.len() - rest@.len()),
        decreases rest@.len(),
    {
        let ghost n = all.len() - rest@.len();
        let next = rest.remove(0);
        proof {
            assert(all.take(n + 1).drop_last() == all.take(n));
            assert(next == all[n]);
            assert(all.take(n + 1).last() == all[n]);
            assert(rest@ == all.skip(n + 1));
        }
        if let Some(e) = next {
            kept.push(e);
        }
    }
    assert(all.take(all.len() as int) == all);
    kept
}

/// What a sync response asks of the client for a room.
#[derive(Debug)]
pub struct SyncUpdate {
    /// The SDK's room struct changed kind: load the members, the display name
    /// and the category again.
    pub matrix_room_changed: bool,
    /// The tags changed: load the category again.
    pub reload_category: bool,
    /// The events to append to the timeline, in order.
    pub events: Vec<TimelineEvent>,
    /// What each of these events asks of the room, in the same order.
    pub effects: Vec<EventEffect>,
}

/// Whether some account data event is a tag event.
pub open spec fn has_tag_event(account_data_is_tag: Seq<bool>) -> bool {
    exists|i: int| 0 <= i < account_data_is_tag.len() && account_data_is_tag[i]
}

impl Room {
    /// Add new events to the timeline: the senders of member events become
    /// known members. Returns what each event asks of the room, in order.
    pub fn append_events(&mut self, batch: &Vec<TimelineEvent>) -> (effects: Vec<EventEffect>)
        ensures
            effects@ == batch@.map_values(|e: TimelineEvent| spec_event_effect(e)),
            final(self)@ == (RoomModel {
                members: members_after(old(self)@.members, batch@),
                ..old(self)@
            }),
    {
        let mut effects: Vec<EventEffect> = Vec::new();
        let mut i: usize = 0;
        while i < batch.len()
            invariant
                i <= batch.len(),
                effects@ == batch@.take(i as int).map_values(|e: TimelineEvent| spec_event_effect(e)),
                self@ == (RoomModel {
                    members: members_after(old(self)@.members, batch@.take(i as int)),
                    ..old(self)@
                }),
            decreases batch.len() - i,
        {
            let event = &batch[i];
            proof {
                assert(batch@.take(i + 1).drop_last() == batch@.take(i as int));
                assert(batch@.take(i + 1).last() == batch@[i as int]);
            }
            if let TimelineEvent::RoomMember { sender } = event {
                self.member_by_id(sender);
            }
            effects.push(event_effect(event));
            proof {
                assert(effects@ == batch@.take(i + 1).map_values(
                    |e: TimelineEvent| spec_event_effect(e),
                ));
            }
            i += 1;
        }
        assert(batch@.take(batch@.len() as int) == batch@);
        effects
    }

    /// Handle the part of a sync response about this room, now left: keep
    /// the events that could be read and append them.
    pub fn handle_left_response(&mut self, events: Vec<Option<TimelineEvent>>) -> (update: SyncUpdate)
        ensures
            update.matrix_room_changed == (old(self)@.kind != Some(MatrixRoomKind::Left)),
            !update.reload_category,
            update.events@ == read_events(events@),
            update.effects@ == read_events(events@).map_values(
                |e: TimelineEvent| spec_event_effect(e),
            ),
            final(self)@ == (RoomModel {
                kind: Some(MatrixRoomKind::Left),
                members: members_after(old(self)@.members, read_events(events@)),
                ..old(self)@
            }),
    {
        let matrix_room_changed = self.set_matrix_room(MatrixRoomKind::Left);
        let events = keep_read_events(events);
        let effects = self.append_events(&events);
        SyncUpdate { matrix_room_changed, reload_category: false, events, effects }
    }

    /// Handle the part of a sync response about this room, now joined: the
    /// category is loaded again when a tag event came among the account data;
    /// the events that could be read are appended.
    pub fn handle_joined_response(
        &mut self,
        account_data_is_tag: &Vec<bool>,
        events: Vec<Option<TimelineEvent>>,
    ) -> (update: SyncUpdate)
        ensures
            update.matrix_room_changed == (old(self)@.kind != Some(MatrixRoomKind::Joined)),
            update.reload_category == has_tag_event(account_data_is_tag@),
            update.events@ == read_events(events@),
            update.effects@ == read_events(events@).map_values(
                |e: TimelineEvent| spec_event_effect(e),
            ),
            final(self)@ == (RoomModel {
                kind: Some(MatrixRoomKind::Joined),
                members: members_after(old(self)@.members, read_events(events@)),
                ..old(self)@
            }),
    {
        let matrix_room_changed = self.set_matrix_room(MatrixRoomKind::Joined);
        let mut reload_category = false;
        let mut i: usize = 0;
        while i < account_data_is_tag.len()
            invariant
                i <= account_data_is_tag.len(),
                reload_category == exists|j: int| 0 <= j < i && account_data_is_tag@[j],
            decreases account_data_is_tag.len() - i,
        {
            if account_data_is_tag[i] {
                reload_category = true;
            }
            i += 1;
        }
        let events = keep_read_events(events);
        let effects = self.append_events(&events);
        SyncUpdate { matrix_room_changed, reload_category, events, effects }
    }

    /// Handle the part of a sync response about this room, now an invite to
    /// the user with the given id: the stripped state events that could be
    /// read give the inviter. Returns whether the SDK's room struct changed
    /// kind, and the index, among the events read, of the inviter's member
    /// event.
    pub fn handle_invited_response(
        &mut self,
        events: Vec<Option<StrippedStateEvent>>,
        own_user_id: &String,
    ) -> (handled: (bool, Vec<StrippedStateEvent>, Option<usize>))
        requires
            exists|i: int|
                0 <= i < read_events(events@).len() && invites_user(
                    #[trigger] read_events(events@)[i],
                    own_user_id@,
                ),
        ensures
            handled.0 == (old(self)@.kind != Some(MatrixRoomKind::Invited)),
            handled.1@ == read_events(events@),
            exists|i: int|
                is_first_invite(handled.1@, own_user_id@, i) && final(self)@ == (RoomModel {
                    kind: Some(MatrixRoomKind::Invited),
                    inviter: Some(handled.1@[i].sender@),
                    ..old(self)@
                }) && (handled.2 matches Some(k) ==> is_first_member_event_from(
                    handled.1@,
                    handled.1@[i].sender@,
                    k as int,
                )) && (handled.2 is None ==> forall|j: int|
                    0 <= j < handled.1@.len() ==> !member_event_from(
                        #[trigger] handled.1@[j],
                        handled.1@[i].sender@,
                    )),
    {
        let changed = self.set_matrix_room(MatrixRoomKind::Invited);
        let events = keep_read_events(events);
        let ghost mid = self@;
        let inviter_event = self.handle_invite_events(&events, own_user_id);
        proof {
            let i = choose|i: int|
                is_first_invite(events@, own_user_id@, i) && self@ == (RoomModel {
                    inviter: Some(events@[i].sender@),
                    ..mid
                }) && (inviter_event matches Some(k) ==> is_first_member_event_from(
                    events@,
                    events@[i].sender@,
                    k as int,
                )) && (inviter_event is None ==> forall|j: int|
                    0 <= j < events@.len() ==> !member_event_from(
                        #[trigger] events@[j],
                        events@[i].sender@,
                    ));
            assert(self@ == (RoomModel {
                kind: Some(MatrixRoomKind::Invited),
                inviter: Some(events@[i].sender@),
                ..old(self)@
            }));
        }
        (changed, events, inviter_event)
    }
}

impl Room {
    /// The message to send for a body written in the composer; messages are
    /// only sent to a joined room.
    pub fn send_text_message(&self, body: &str, markdown_enabled: bool) -> (message: Option<OutgoingMessage>)
        ensures
            self@.kind != Some(MatrixRoomKind::Joined) ==> message is None,
            self@.kind == Some(MatrixRoomKind::Joined) ==> (message matches Some(m)
                && composed_message(body@, markdown_enabled, m)),
    {
        match self.kind {
            Some(MatrixRoomKind::Joined) => Some(compose_text_message(body, markdown_enabled)),
            _ => None,
        }
    }

    /// Send a message to this room: a message is only sent to a joined room,
    /// where it shows in the timeline under its pending event id until the
    /// server answers with the real one.
    pub fn send_message(
        &self,
        txn_id: String,
        pending_event_id: String,
        message: OutgoingMessage,
    ) -> (pending: Option<PendingMessage>)
        ensures
            self@.kind != Some(MatrixRoomKind::Joined) ==> pending is None,
            self@.kind == Some(MatrixRoomKind::Joined) ==> pending == Some(
                PendingMessage { txn_id, pending_event_id, message },
            ),
    {
        match self.kind {
            Some(MatrixRoomKind::Joined) => Some(PendingMessage { txn_id, pending_event_id, message }),
            _ => None,
        }
    }

    /// The request that accepts the invite to this room; there is none when
    /// the room is not an invite.
    pub fn accept_invite(&self) -> (request: Option<RoomRequest>)
        ensures
            request == (if self@.kind == Some(MatrixRoomKind::Invited) {
                Some(RoomRequest::AcceptInvitation)
            } else {
                None
            }),
    {
        match self.kind {
            Some(MatrixRoomKind::Invited) => Some(RoomRequest::AcceptInvitation),
            _ => None,
        }
    }

    /// The request that rejects the invite to this room; there is none when
    /// the room is not an invite.
    pub fn reject_invite(&self) -> (request: Option<RoomRequest>)
        ensures
            request == (if self@.kind == Some(MatrixRoomKind::Invited) {
                Some(RoomRequest::RejectInvitation)
            } else {
                None
            }),
    {
        match self.kind {
            Some(MatrixRoomKind::Invited) => Some(RoomRequest::RejectInvitation),
            _ => None,
        }
    }
}

/// Why the session records an error about a room.
#[derive(Debug, Clone, Copy, PartialEq, Eq, Structural)]
pub enum SessionErrorKind {
    /// Moving the room between these categories failed.
    MoveFailed { previous: RoomType, category: RoomType },
    /// Accepting the invite failed.
    AcceptInviteFailed,
    /// Rejecting the invite failed.
    RejectInviteFailed,
}

/// An error that the session records for the user to see, with the error of
/// the homeserver request that caused it.
#[derive(Debug, Clone)]
pub struct SessionError {
    pub kind: SessionErrorKind,
    pub cause: String,
}

impl SessionErrorKind {
    /// The message id of the text shown for a failed invite answer, where
    /// `<widget>` stands for the room. The text of a failed move holds the
    /// names of the categories: `move_failed_message` makes it.
    pub fn message_msgid(self) -> (msgid: Option<&'static str>)
        ensures
            self is MoveFailed ==> msgid is None,
            self is AcceptInviteFailed ==> (msgid matches Some(m) && m@
                == "Failed to accept invitation for <widget>. Try again later."@),
            self is RejectInviteFailed ==> (msgid matches Some(m) && m@
                == "Failed to reject invitation for <widget>. Try again later."@),
    {
        match self {
            SessionErrorKind::MoveFailed { .. } => None,
            SessionErrorKind::AcceptInviteFailed => Some(
                "Failed to accept invitation for <widget>. Try again later.",
            ),
            SessionErrorKind::RejectInviteFailed => Some(
                "Failed to reject invitation for <widget>. Try again later.",
            ),
        }
    }
}

/// The message id of the text of a failed move between the categories of
/// the given names, as the client formats it before translating it.
pub open spec fn spec_move_failed_msgid(previous: Seq<char>, category: Seq<char>) -> Seq<char> {
    "Failed to move <widget> from "@ + previous + " to "@ + category + "."@
}

/// The text shown for a failed move between the categories of the given
/// names: the message with the names filled in, then translated.
pub fn move_failed_message(translations: &Translations, previous: &str, category: &str) -> (text: String)
    requires
        is_msgid(previous@),
        is_msgid(category@),
    ensures
        translation_of(translations@, spec_move_failed_msgid(previous@, category@), text@),
{
    proof {
        reveal_strlit("Failed to move <widget> from ");
        reveal_strlit(" to ");
        reveal_strlit(".");
    }
    let mut msgid = "Failed to move <widget> from ".to_owned();
    msgid.append(previous);
    msgid.append(" to ");
    msgid.append(category);
    msgid.append(".");
    assert(msgid@ == spec_move_failed_msgid(previous@, category@));
    assert(is_msgid(msgid@)) by {
        let a = "Failed to move <widget> from "@;
        let b = " to "@;
        assert forall|i: int| 0 <= i < msgid@.len() implies msgid@[i] != '\0' by {
            if i < a.len() {
            } else if i < a.len() + previous@.len() {
                assert(msgid@[i] == previous@[i - a.len()]);
            } else if i < a.len() + previous@.len() + b.len() {
            } else if i < a.len() + previous@.len() + b.len() + category@.len() {
                assert(msgid@[i] == category@[i - a.len() - previous@.len() - b.len()]);
            }
        }
    }
    translate(translations, msgid.as_str())
}

/// What a failed category move leaves: the error that the session records,
/// and what loading the category again did.
#[derive(Debug, Clone)]
pub struct MoveFailure {
    pub error: SessionError,
    pub reload: CategoryLoad,
}

impl Room {
    /// Finish moving the room from `previous` to `category` once the request
    /// to the homeserver answered. Nothing more happens when it succeeded.
    /// When it failed, the session records the error, and the category is
    /// loaded again, as `Room::load_category` does, so that the room goes
    /// back to the category that the homeserver knows.
    pub fn finish_set_category(
        &mut self,
        previous: RoomType,
        category: RoomType,
        result: Result<(), String>,
    ) -> (failure: Option<MoveFailure>)
        requires
            old(self)@.kind is Some,
        ensures
            result is Ok ==> failure is None && final(self)@ == old(self)@,
            result matches Err(e) ==> failure matches Some(f) && f.error.kind
                == (SessionErrorKind::MoveFailed { previous, category }) && f.error.cause == e && {
                let c = spec_category_of_kind(old(self)@.kind->0);
                ||| c matches Some(c) && f.reload == CategoryLoad::Loaded(old(self)@.category != c)
                    && final(self)@ == (RoomModel { category: c, ..old(self)@ })
                ||| c is None && f.reload == CategoryLoad::NeedsTags && final(self)@ == old(self)@
            },
    {
        match result {
            Ok(()) => None,
            Err(e) => {
                let reload = self.load_category();
                Some(
                    MoveFailure {
                        error: SessionError {
                            kind: SessionErrorKind::MoveFailed { previous, category },
                            cause: e,
                        },
                        reload,
                    },
                )
            },
        }
    }

    /// What answering an invite ends with, once the request to the homeserver
    /// answered: `Ok` when it succeeded, else the error, which the session
    /// records too. `accept` tells whether the invite was accepted or
    /// rejected.
    pub fn finish_invite_answer(accept: bool, result: Result<(), String>) -> (outcome: Result<(), SessionError>)
        ensures
            result is Ok ==> outcome is Ok,
            result matches Err(e) ==> outcome matches Err(err) && err.cause == e && err.kind == (
            if accept {
                SessionErrorKind::AcceptInviteFailed
            } else {
                SessionErrorKind::RejectInviteFailed
            }),
    {
        match result {
            Ok(()) => Ok(()),
            Err(e) => Err(
                SessionError {
                    kind: if accept {
                        SessionErrorKind::AcceptInviteFailed
                    } else {
                        SessionErrorKind::RejectInviteFailed
                    },
                    cause: e,
                },
            ),
        }
    }
}

/// The known members after the given user ids were looked up, in order.
pub open spec fn members_with_all(members: Seq<Seq<char>>, user_ids: Seq<Seq<char>>) -> Seq<Seq<char>>
    decreases user_ids.len(),
{
    if user_ids.len() == 0 {
        members
    } else {
        with_member(members_with_all(members, user_ids.drop_last()), user_ids.last())
    }
}

impl Room {
    /// Add an initial set of members needed to display room events: each one
    /// that is not known yet is registered, in order.
    pub fn add_members(&mut self, user_ids: &Vec<String>)
        ensures
            final(self)@ == (RoomModel {
                members: members_with_all(
                    old(self)@.members,
                    user_ids@.map_values(|u: String| u@),
                ),
                ..old(self)@
            }),
    {
        let ghost ids = user_ids@.map_values(|u: String| u@);
        let mut i: usize = 0;
        while i < user_ids.len()
            invariant
                i <= user_ids.len(),
                ids == user_ids@.map_values(|u: String| u@),
                self@ == (RoomModel {
                    members: members_with_all(old(self)@.members, ids.take(i as int)),
                    ..old(self)@
                }),
            decreases user_ids.len() - i,
        {
            proof {
                assert(ids.take(i + 1).drop_last() == ids.take(i as int));
                assert(ids.take(i + 1).last() == user_ids@[i as int]@);
            }
            self.member_by_id(&user_ids[i]);
            i += 1;
        }
        assert(ids.take(user_ids@.len() as int) == ids);
    }
}

} // verus!
