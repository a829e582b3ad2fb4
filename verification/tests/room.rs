use fractal::room::{
    compose_text_message, move_failed_message, find_invite_event, find_member_event_from, keep_read_events, request_for,
    CategoryChange, CategoryLoad, EventEffect, HighlightFlags, MatrixRoomKind, MembershipState,
    MessageKind, Room, RoomRequest, RoomTags, RoomType, SessionErrorKind, StrippedStateEvent,
    TimelineEvent,
};
use fractal::i18n::{init_translations, Translations};

fn translations() -> Translations {
    init_translations("/usr/share/locale")
}

fn joined_room() -> Room {
    let mut room = Room::new("!room:example.org".to_owned());
    assert!(room.set_matrix_room(MatrixRoomKind::Joined));
    room
}

fn member_event(membership: MembershipState, state_key: &str, sender: &str) -> StrippedStateEvent {
    StrippedStateEvent {
        is_room_member: true,
        membership,
        state_key: state_key.to_owned(),
        sender: sender.to_owned(),
    }
}

fn other_event(sender: &str) -> StrippedStateEvent {
    StrippedStateEvent {
        is_room_member: false,
        membership: MembershipState::Other,
        state_key: String::new(),
        sender: sender.to_owned(),
    }
}

#[test]
fn new_room_is_normal() {
    let room = Room::new("!a:b".to_owned());
    assert_eq!(room.category(), RoomType::Normal);
    assert_eq!(room.kind(), None);
    assert_eq!(room.room_id(), "!a:b");
    assert!(room.inviter().is_none());
    assert_eq!(RoomType::default(), RoomType::Normal);
}

#[test]
fn matrix_room_change_is_detected_once() {
    let mut room = joined_room();
    assert!(!room.set_matrix_room(MatrixRoomKind::Joined));
    assert!(room.set_matrix_room(MatrixRoomKind::Left));
    assert_eq!(room.kind(), Some(MatrixRoomKind::Left));
}

#[test]
fn rooms_cannot_move_to_invites() {
    let mut room = joined_room();
    assert_eq!(room.set_category(RoomType::Invited), CategoryChange::Refused);
    assert_eq!(room.category(), RoomType::Normal);
}

#[test]
fn setting_the_same_category_does_nothing() {
    let mut room = joined_room();
    assert_eq!(room.set_category(RoomType::Normal), CategoryChange::Unchanged);
    assert_eq!(room.set_category(RoomType::Favorite), CategoryChange::Moved(RoomRequest::NoRequest));
    assert_eq!(room.set_category(RoomType::Favorite), CategoryChange::Unchanged);
    assert_eq!(room.category(), RoomType::Favorite);
}

#[test]
fn leaving_a_joined_room_sends_leave() {
    let mut room = joined_room();
    assert_eq!(room.set_category(RoomType::Left), CategoryChange::Moved(RoomRequest::Leave));
    assert_eq!(room.category(), RoomType::Left);
}

#[test]
fn answering_an_invite() {
    let mut room = Room::new("!i:x".to_owned());
    room.set_matrix_room(MatrixRoomKind::Invited);
    assert_eq!(room.load_category(), CategoryLoad::Loaded(true));
    assert_eq!(room.category(), RoomType::Invited);
    assert_eq!(
        room.set_category(RoomType::Normal),
        CategoryChange::Moved(RoomRequest::AcceptInvitation)
    );
    let mut other = Room::new("!j:x".to_owned());
    other.set_matrix_room(MatrixRoomKind::Invited);
    other.load_category();
    assert_eq!(other.set_category(RoomType::Left), CategoryChange::Moved(RoomRequest::RejectInvitation));
}

#[test]
fn requests_for_left_rooms() {
    assert_eq!(request_for(MatrixRoomKind::Left, RoomType::Favorite), RoomRequest::Join);
    assert_eq!(request_for(MatrixRoomKind::Left, RoomType::LowPriority), RoomRequest::Join);
    assert_eq!(request_for(MatrixRoomKind::Left, RoomType::Left), RoomRequest::NoRequest);
    assert_eq!(request_for(MatrixRoomKind::Invited, RoomType::Favorite), RoomRequest::AcceptInvitation);
    assert_eq!(request_for(MatrixRoomKind::Joined, RoomType::LowPriority), RoomRequest::NoRequest);
}

#[test]
fn category_from_kind_and_tags() {
    let mut room = joined_room();
    assert_eq!(room.load_category(), CategoryLoad::NeedsTags);
    assert!(room.apply_tags(Some(RoomTags { favorite: true, low_priority: true })));
    assert_eq!(room.category(), RoomType::Favorite);
    assert!(room.apply_tags(Some(RoomTags { favorite: false, low_priority: true })));
    assert_eq!(room.category(), RoomType::LowPriority);
    assert!(room.apply_tags(None));
    assert_eq!(room.category(), RoomType::Normal);
    assert!(!room.apply_tags(Some(RoomTags { favorite: false, low_priority: false })));
    room.set_matrix_room(MatrixRoomKind::Left);
    assert_eq!(room.load_category(), CategoryLoad::Loaded(true));
    assert_eq!(room.category(), RoomType::Left);
}

#[test]
fn highlight_and_counts() {
    assert_eq!(Room::highlight(0), HighlightFlags::NONE);
    assert_eq!(Room::highlight(3), HighlightFlags::HIGHLIGHT);
    assert_eq!(Room::notification_count(2, 7), 2);
    assert_eq!(Room::notification_count(0, 7), 7);
}

#[test]
fn display_name_is_kept() {
    let tr = translations();
    let mut room = joined_room();
    assert_eq!(room.display_name(&tr), "Unknown");
    assert!(room.set_display_name(&tr, Some("Rust".to_owned())));
    assert_eq!(room.display_name(&tr), "Rust");
    assert!(!room.set_display_name(&tr, Some("Rust".to_owned())));
    assert!(room.set_display_name(&tr, None));
    assert_eq!(room.display_name(&tr), "Unknown");
}

#[test]
fn topic_needs_visible_text() {
    assert_eq!(Room::topic(Some("Hello".to_owned())), Some("Hello".to_owned()));
    assert_eq!(Room::topic(Some("  \t\n".to_owned())), None);
    assert_eq!(Room::topic(Some(String::new())), None);
    assert_eq!(Room::topic(None), None);
    assert_eq!(Room::topic(Some(" a ".to_owned())), Some(" a ".to_owned()));
}

#[test]
fn members_are_registered_once() {
    let mut room = joined_room();
    let alice = "@alice:x".to_owned();
    assert!(!room.has_member(&alice));
    assert!(room.member_by_id(&alice));
    assert!(!room.member_by_id(&alice));
    assert!(room.has_member(&alice));
}

#[test]
fn invite_events_give_the_inviter() {
    let own = "@me:x".to_owned();
    let events = vec![
        other_event("@bob:x"),
        member_event(MembershipState::Join, "@bob:x", "@bob:x"),
        member_event(MembershipState::Invite, "@me:x", "@bob:x"),
    ];
    assert_eq!(find_invite_event(&events, &own), Some(2));
    assert_eq!(find_member_event_from(&events, &"@bob:x".to_owned()), Some(1));
    let mut room = Room::new("!r:x".to_owned());
    assert_eq!(room.handle_invite_events(&events, &own), Some(1));
    assert_eq!(room.inviter(), Some(&"@bob:x".to_owned()));
}

#[test]
fn invite_for_someone_else_is_not_found() {
    let events = vec![member_event(MembershipState::Invite, "@other:x", "@bob:x")];
    assert_eq!(find_invite_event(&events, &"@me:x".to_owned()), None);
    assert_eq!(find_member_event_from(&events, &"@carol:x".to_owned()), None);
}

#[test]
fn appending_events_updates_members() {
    let mut room = joined_room();
    let batch = vec![
        TimelineEvent::RoomMember { sender: "@a:x".to_owned() },
        TimelineEvent::RoomAvatar { url: Some("mxc://x/y".to_owned()) },
        TimelineEvent::RoomName,
        TimelineEvent::RoomTopic,
        TimelineEvent::Other,
        TimelineEvent::RoomMember { sender: "@a:x".to_owned() },
    ];
    let effects = room.append_events(&batch);
    assert_eq!(
        effects,
        vec![
            EventEffect::UpdateMember,
            EventEffect::SetAvatarUrl(Some("mxc://x/y".to_owned())),
            EventEffect::ReloadDisplayName,
            EventEffect::NotifyTopic,
            EventEffect::NoEffect,
            EventEffect::UpdateMember,
        ]
    );
    assert!(room.has_member(&"@a:x".to_owned()));
}

#[test]
fn emote_command_makes_an_emote() {
    let m = compose_text_message("/me waves", true);
    assert_eq!(m.kind, MessageKind::Emote);
    assert_eq!(m.body, "waves");
    assert_eq!(m.formatted, None);
    let t = compose_text_message("/mewaves", false);
    assert_eq!(t.kind, MessageKind::Text);
    assert_eq!(t.body, "/mewaves");
    assert_eq!(t.formatted, None);
    let e = compose_text_message("/me ", false);
    assert_eq!(e.kind, MessageKind::Emote);
    assert_eq!(e.body, "");
}

#[test]
fn unreadable_events_are_dropped() {
    assert_eq!(keep_read_events(vec![Some(1), None, Some(3), None]), vec![1, 3]);
    assert_eq!(keep_read_events::<u8>(vec![None]), Vec::<u8>::new());
}

#[test]
fn joined_response_reloads_category_on_tags() {
    let mut room = Room::new("!r:x".to_owned());
    let update = room.handle_joined_response(
        &vec![false, true],
        vec![Some(TimelineEvent::RoomTopic), None, Some(TimelineEvent::RoomMember { sender: "@b:x".to_owned() })],
    );
    assert!(update.matrix_room_changed);
    assert!(update.reload_category);
    assert_eq!(update.events.len(), 2);
    assert_eq!(update.effects, vec![EventEffect::NotifyTopic, EventEffect::UpdateMember]);
    assert!(room.has_member(&"@b:x".to_owned()));
    let again = room.handle_joined_response(&vec![false], vec![]);
    assert!(!again.matrix_room_changed);
    assert!(!again.reload_category);
}

#[test]
fn left_response_switches_kind() {
    let mut room = joined_room();
    let update = room.handle_left_response(vec![None, Some(TimelineEvent::RoomName)]);
    assert!(update.matrix_room_changed);
    assert!(!update.reload_category);
    assert_eq!(update.effects, vec![EventEffect::ReloadDisplayName]);
    assert_eq!(room.kind(), Some(MatrixRoomKind::Left));
}

#[test]
fn invited_response_sets_inviter() {
    let mut room = Room::new("!r:x".to_owned());
    let (changed, events, inviter) = room.handle_invited_response(
        vec![None, Some(member_event(MembershipState::Invite, "@me:x", "@carol:x"))],
        &"@me:x".to_owned(),
    );
    assert!(changed);
    assert_eq!(events.len(), 1);
    assert_eq!(inviter, Some(0));
    assert_eq!(room.inviter(), Some(&"@carol:x".to_owned()));
    assert_eq!(room.kind(), Some(MatrixRoomKind::Invited));
}

#[test]
fn only_joined_rooms_send_messages() {
    let room = joined_room();
    let m = room.send_text_message("/me dances", false).expect("a message");
    assert_eq!(m.kind, MessageKind::Emote);
    assert_eq!(m.body, "dances");
    let mut left = Room::new("!l:x".to_owned());
    assert!(left.send_text_message("hi", false).is_none());
    left.set_matrix_room(MatrixRoomKind::Left);
    assert!(left.send_text_message("hi", false).is_none());
}

#[test]
fn pending_messages_only_for_joined_rooms() {
    let room = joined_room();
    let m = compose_text_message("hello", true);
    let p = room
        .send_message("t1".to_owned(), "$t1:fractal.gnome.org".to_owned(), m.clone())
        .expect("a pending message");
    assert_eq!(p.txn_id, "t1");
    assert_eq!(p.pending_event_id, "$t1:fractal.gnome.org");
    assert_eq!(p.message.body, "hello");
    assert_eq!(p.message.formatted, None);
    let mut invited = Room::new("!i:x".to_owned());
    invited.set_matrix_room(MatrixRoomKind::Invited);
    assert!(invited.send_message("t2".to_owned(), "$t2:fractal.gnome.org".to_owned(), m).is_none());
}

#[test]
fn only_invites_are_answered() {
    let mut room = Room::new("!i:x".to_owned());
    room.set_matrix_room(MatrixRoomKind::Invited);
    assert_eq!(room.accept_invite(), Some(RoomRequest::AcceptInvitation));
    assert_eq!(room.reject_invite(), Some(RoomRequest::RejectInvitation));
    let joined = joined_room();
    assert_eq!(joined.accept_invite(), None);
    assert_eq!(joined.reject_invite(), None);
}

#[test]
fn initial_members_are_added_once() {
    let mut room = joined_room();
    room.add_members(&vec!["@a:x".to_owned(), "@b:x".to_owned(), "@a:x".to_owned()]);
    assert!(room.has_member(&"@a:x".to_owned()));
    assert!(room.has_member(&"@b:x".to_owned()));
    assert!(!room.has_member(&"@c:x".to_owned()));
    assert!(!room.member_by_id(&"@b:x".to_owned()));
}

#[test]
fn failed_move_is_recorded_and_reloaded() {
    let mut room = Room::new("!l:x".to_owned());
    room.set_matrix_room(MatrixRoomKind::Left);
    room.load_category();
    assert_eq!(room.category(), RoomType::Left);
    assert_eq!(room.set_category(RoomType::Normal), CategoryChange::Moved(RoomRequest::Join));
    assert_eq!(room.category(), RoomType::Normal);
    assert!(room.finish_set_category(RoomType::Left, RoomType::Normal, Ok(())).is_none());
    assert_eq!(room.category(), RoomType::Normal);
    let failure = room
        .finish_set_category(RoomType::Left, RoomType::Normal, Err("forbidden".to_owned()))
        .expect("a failure");
    assert_eq!(failure.error.kind, SessionErrorKind::MoveFailed { previous: RoomType::Left, category: RoomType::Normal });
    assert_eq!(failure.error.cause, "forbidden");
    assert_eq!(failure.reload, CategoryLoad::Loaded(true));
    assert_eq!(room.category(), RoomType::Left);
    assert_eq!(failure.error.kind.message_msgid(), None);
    let tr = translations();
    assert_eq!(move_failed_message(&tr, "Left", "Normal"), "Failed to move <widget> from Left to Normal.");
    let mut joined = joined_room();
    joined.apply_tags(None);
    joined.set_category(RoomType::Left);
    let f = joined.finish_set_category(RoomType::Normal, RoomType::Left, Err("e".to_owned())).unwrap();
    assert_eq!(f.reload, CategoryLoad::NeedsTags);
}

#[test]
fn failed_invite_answers_are_errors() {
    assert!(Room::finish_invite_answer(true, Ok(())).is_ok());
    let accept = Room::finish_invite_answer(true, Err("e1".to_owned())).unwrap_err();
    assert_eq!(accept.kind, SessionErrorKind::AcceptInviteFailed);
    assert_eq!(accept.cause, "e1");
    assert_eq!(accept.kind.message_msgid(), Some("Failed to accept invitation for <widget>. Try again later."));
    let reject = Room::finish_invite_answer(false, Err("e2".to_owned())).unwrap_err();
    assert_eq!(reject.kind, SessionErrorKind::RejectInviteFailed);
    assert_eq!(reject.kind.message_msgid(), Some("Failed to reject invitation for <widget>. Try again later."));
}

#[test]
fn outdated_and_space_moves_send_nothing() {
    assert_eq!(request_for(MatrixRoomKind::Invited, RoomType::Space), RoomRequest::NoRequest);
    assert_eq!(request_for(MatrixRoomKind::Left, RoomType::Outdated), RoomRequest::NoRequest);
}

#[test]
fn markdown_bodies_carry_html() {
    let m = compose_text_message("/me waves **hard**", true);
    assert_eq!(m.kind, MessageKind::Emote);
    assert_eq!(m.body, "waves **hard**");
    assert_eq!(m.formatted, Some("<p>waves <strong>hard</strong></p>\n".to_owned()));
    let t = compose_text_message("*hi*", true);
    assert_eq!(t.formatted, Some("<p><em>hi</em></p>\n".to_owned()));
    let plain = compose_text_message("*hi*", false);
    assert_eq!(plain.formatted, None);
}
