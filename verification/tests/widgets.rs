use fractal::context_menu_bin::{ContextMenuBin, Rectangle};
use fractal::editable_avatar::{ActionState, AvatarChoice, EditableAvatar};
use fractal::item_row::{ChildUpdate, DividerLabel, ItemMenu, ItemRow, RowChild, TimelineItemKind};
use fractal::message_actions::{
    message_source_text, request_more_messages, returns_from_media_viewer, save_as_target,
    HistoryRequest, MessageAction,
};
use fractal::message_file::MessageFile;
use fractal::public_room_row::{
    PublicRoom, PublicRoomContent, PublicRoomInfo, PublicRoomRow, PublicRoomUpdate,
};
use fractal::room::{HighlightFlags, RoomType};
use fractal::room_row::{
    action_effect, action_name, RoomRow, RoomRowAction, RoomRowEffect, RowHighlight, RowRoom,
};
use fractal::text::quote_message;
use fractal::timeline_day_divider::{DividerDate, TimelineDayDivider};
use fractal::window::{is_devel_build, window_placement, WindowPlacement};
use fractal::i18n::{init_translations, Translations};

fn translations() -> Translations {
    init_translations("/usr/share/locale")
}

const ALL_ACTIONS: [RoomRowAction; 9] = [
    RoomRowAction::AcceptInvite,
    RoomRowAction::RejectInvite,
    RoomRowAction::SetFavorite,
    RoomRowAction::UnsetFavorite,
    RoomRowAction::SetLowPriority,
    RoomRowAction::UnsetLowPriority,
    RoomRowAction::Leave,
    RoomRowAction::Join,
    RoomRowAction::Forget,
];

#[test]
fn invite_rows_only_answer() {
    let a = RoomRow::update_actions(Some(RoomType::Invited));
    assert!(a.accept_invite && a.reject_invite);
    assert!(!a.set_favorite && !a.leave && !a.join && !a.forget);
}

#[test]
fn left_rows_join_or_forget() {
    let a = RoomRow::update_actions(Some(RoomType::Left));
    assert!(a.join && a.forget);
    assert!(!a.leave && !a.accept_invite);
}

#[test]
fn no_room_no_action() {
    for category in [None, Some(RoomType::Outdated), Some(RoomType::Space)] {
        let a = RoomRow::update_actions(category);
        for action in ALL_ACTIONS {
            assert!(!a.is_enabled(action));
        }
    }
}

#[test]
fn enabled_actions_move_rooms_elsewhere() {
    for category in [
        RoomType::Invited,
        RoomType::Favorite,
        RoomType::Normal,
        RoomType::LowPriority,
        RoomType::Left,
        RoomType::Outdated,
        RoomType::Space,
    ] {
        let a = RoomRow::update_actions(Some(category));
        for action in ALL_ACTIONS {
            if a.is_enabled(action) {
                if let RoomRowEffect::SetCategory(target) = action_effect(action) {
                    assert_ne!(target, category);
                    assert_ne!(target, RoomType::Invited);
                }
            }
        }
    }
}

#[test]
fn action_names() {
    assert_eq!(action_name(RoomRowAction::AcceptInvite), "room-row.accept-invite");
    assert_eq!(action_name(RoomRowAction::UnsetLowPriority), "room-row.unset-lowpriority");
    assert_eq!(action_effect(RoomRowAction::Forget), RoomRowEffect::Forget);
    assert_eq!(action_effect(RoomRowAction::SetFavorite), RoomRowEffect::SetCategory(RoomType::Favorite));
}

#[test]
fn row_highlight_classes() {
    let h = RoomRow::set_highlight(HighlightFlags::HIGHLIGHT);
    assert!(h.notification_highlight && !h.display_name_bold);
    let b = RoomRow::set_highlight(HighlightFlags::BOLD);
    assert!(!b.notification_highlight && b.display_name_bold);
    let n = RoomRow::set_highlight(HighlightFlags::NONE);
    assert!(!n.notification_highlight && !n.display_name_bold);
    let hb = RoomRow::set_highlight(HighlightFlags::HIGHLIGHT_BOLD);
    assert!(hb.notification_highlight && hb.display_name_bold);
    assert!(RoomRow::dims_display_name(RoomType::Left));
    assert!(!RoomRow::dims_display_name(RoomType::Normal));
    assert!(RoomRow::shows_notification_count(1));
    assert!(!RoomRow::shows_notification_count(0));
}

#[test]
fn item_rows_reuse_children() {
    let mut row = ItemRow::new();
    assert_eq!(row.item(), None);
    let event = TimelineItemKind::Event { is_state: false, has_content: true };
    let u = row.set_item(Some(event), RowChild::MessageRow);
    assert_eq!(row.item(), Some(event));
    assert_eq!(u.child, ChildUpdate::Reuse(RowChild::MessageRow));
    assert!(!u.clear_menu && u.event_actions);
    assert_eq!(u.label, None);
    let s = row.set_item(Some(TimelineItemKind::Event { is_state: true, has_content: false }), RowChild::MessageRow);
    assert_eq!(s.child, ChildUpdate::Create(RowChild::StateRow));
    let d = row.set_item(Some(TimelineItemKind::DayDivider), RowChild::Spinner);
    assert_eq!(d.child, ChildUpdate::Create(RowChild::DividerRow));
    assert!(d.clear_menu && !d.event_actions);
    assert_eq!(d.label, Some(DividerLabel::FormattedDate));
    assert_eq!(DividerLabel::FormattedDate.msgid(), None);
    let sp = row.set_item(Some(TimelineItemKind::Spinner), RowChild::Spinner);
    assert_eq!(sp.child, ChildUpdate::Untouched);
    assert!(!sp.clear_menu);
    let sp2 = row.set_item(Some(TimelineItemKind::Spinner), RowChild::MessageRow);
    assert_eq!(sp2.child, ChildUpdate::Create(RowChild::Spinner));
    assert!(sp2.clear_menu);
    let n = row.set_item(Some(TimelineItemKind::NewMessagesDivider), RowChild::DividerRow);
    assert_eq!(n.child, ChildUpdate::Reuse(RowChild::DividerRow));
    assert_eq!(n.label, Some(DividerLabel::NewMessages));
    assert_eq!(DividerLabel::NewMessages.msgid(), Some("New Messages"));
    assert_eq!(row.set_item(Some(TimelineItemKind::Other), RowChild::Empty).child, ChildUpdate::Untouched);
    let none = row.set_item(None, RowChild::DividerRow);
    assert_eq!(row.item(), None);
    assert_eq!(none.child, ChildUpdate::Untouched);
    assert!(!none.clear_menu);
}

#[test]
fn item_menus() {
    assert_eq!(ItemRow::menu_opened(TimelineItemKind::Event { is_state: false, has_content: true }), ItemMenu::MessageMenu);
    assert_eq!(ItemRow::menu_opened(TimelineItemKind::Event { is_state: true, has_content: false }), ItemMenu::StateMenu);
    assert_eq!(ItemRow::menu_opened(TimelineItemKind::DayDivider), ItemMenu::NoMenu);
}

#[test]
fn message_file_filename() {
    let mut f = MessageFile::new();
    assert_eq!(f.filename(), None);
    assert!(!f.set_filename(Some(String::new())));
    assert!(f.set_filename(Some("a.txt".to_owned())));
    assert!(!f.set_filename(Some("a.txt".to_owned())));
    assert_eq!(f.filename(), Some("a.txt".to_owned()));
    assert!(f.set_filename(Some(String::new())));
    assert_eq!(f.filename(), None);
    assert!(!f.compact());
    assert!(f.set_compact(true));
    assert!(!f.set_compact(true));
    assert!(f.compact());
}

#[test]
fn editable_avatar_state() {
    let mut a = EditableAvatar::new();
    assert!(a.edit_sensitive && a.remove_sensitive && !a.editable && !a.removable);
    assert_eq!(a.avatar, None);
    assert_eq!(a.temp_image, None);
    assert!(a.set_avatar(Some("mxc://x/a".to_owned())));
    assert!(!a.set_avatar(Some("mxc://x/a".to_owned())));
    assert_eq!(a.avatar, Some("mxc://x/a".to_owned()));
    a.set_temp_image_from_file(Some("/tmp/new.png".to_owned()), true);
    assert_eq!(a.temp_image, Some("/tmp/new.png".to_owned()));
    a.set_temp_image_from_file(Some("/tmp/bad.txt".to_owned()), false);
    assert_eq!(a.temp_image, None);
    assert!(a.set_avatar(None));
    assert!(a.set_editable(true));
    assert!(!a.set_editable(true));
    assert!(a.set_edit_state(ActionState::Loading));
    assert!(!a.set_edit_state(ActionState::Loading));
    assert!(a.set_remove_state(ActionState::Confirm));
    assert!(a.set_removable(true));
    assert!(a.set_edit_sensitive(false));
    assert!(a.set_remove_sensitive(false));
    assert_eq!(ActionState::default(), ActionState::Default);
    assert_eq!(EditableAvatar::show_temp_image(true), "temp");
    assert_eq!(EditableAvatar::show_temp_image(false), "default");
}

#[test]
fn choosing_an_avatar() {
    assert_eq!(EditableAvatar::choose_avatar(false, true, Some(true)), AvatarChoice::Cancelled);
    assert_eq!(EditableAvatar::choose_avatar(true, false, None), AvatarChoice::NoFile);
    assert_eq!(EditableAvatar::choose_avatar(true, true, None), AvatarChoice::UnknownType);
    assert_eq!(EditableAvatar::choose_avatar(true, true, Some(false)), AvatarChoice::NotAnImage);
    assert_eq!(EditableAvatar::choose_avatar(true, true, Some(true)), AvatarChoice::EditAvatar);
    assert_eq!(EditableAvatar::choice_error_msgid(AvatarChoice::NotAnImage), Some("The chosen file is not an image"));
    assert_eq!(EditableAvatar::choice_error_msgid(AvatarChoice::EditAvatar), None);
}

#[test]
fn context_menu_opening() {
    assert!(ContextMenuBin::opens_on_release(1));
    assert!(!ContextMenuBin::opens_on_release(2));
    assert_eq!(ContextMenuBin::open_menu_at(false, 3, 4), None);
    assert_eq!(ContextMenuBin::open_menu_at(true, 3, 4), Some(Rectangle { x: 3, y: 4, width: 0, height: 0 }));
}

#[test]
fn day_divider_format() {
    let mut d = TimelineDayDivider::new(DividerDate { instant: 0, year: 2022, month: 3, day: 14 });
    assert_eq!(d.formatted_date_msgid(2022), Some("%A, %B %e"));
    assert_eq!(d.formatted_date_msgid(2023), Some("%A, %B %e, %Y"));
    assert!(!d.set_date(Some(DividerDate { instant: 0, year: 2022, month: 3, day: 14 })));
    // The same day at another time is another date.
    assert!(d.set_date(Some(DividerDate { instant: 3600, year: 2022, month: 3, day: 14 })));
    assert!(d.set_date(Some(DividerDate { instant: 0, year: 2021, month: 3, day: 14 })));
    assert_eq!(d.date(), Some(DividerDate { instant: 0, year: 2021, month: 3, day: 14 }));
    assert_eq!(d.formatted_date_msgid(2022), Some("%A, %B %e, %Y"));
    assert!(d.set_date(None));
    assert_eq!(d.formatted_date_msgid(2022), None);
    assert!(!d.set_date(None));
}

#[test]
fn public_room_display() {
    assert!(matches!(PublicRoomRow::public_room_content(None), PublicRoomContent::Loading));
    let d = match PublicRoomRow::public_room_content(Some(PublicRoomInfo {
        name: None,
        topic: Some("t".to_owned()),
        canonical_alias: None,
        num_joined_members: 1024,
    })) {
        PublicRoomContent::Loaded(d) => d,
        PublicRoomContent::Loading => panic!("the room was described"),
    };
    assert_eq!(d.display_name, "Room without name");
    assert_eq!(d.description, Some("t".to_owned()));
    assert_eq!(d.alias, None);
    assert_eq!(d.members_count, "1024");
    let z = match PublicRoomRow::public_room_content(Some(PublicRoomInfo {
        name: Some("Rust".to_owned()),
        topic: None,
        canonical_alias: Some("#rust:x".to_owned()),
        num_joined_members: 0,
    })) {
        PublicRoomContent::Loaded(z) => z,
        PublicRoomContent::Loading => panic!("the room was described"),
    };
    assert_eq!(z.display_name, "Rust");
    assert_eq!(z.members_count, "0");
    assert_eq!(z.alias, Some("#rust:x".to_owned()));
    assert_eq!(z.description, None);
    let b = PublicRoomRow::update_button(true, false);
    assert_eq!(b.label_msgid, "View");
    assert!(!b.loading);
    let j = PublicRoomRow::update_button(false, true);
    assert_eq!(j.label_msgid, "Join");
    assert!(j.loading);
}

#[test]
fn reply_quotes() {
    assert_eq!(quote_message("hello"), "> hello\n\n");
    assert_eq!(quote_message("a\nb"), "> a\n> b\n\n");
    assert_eq!(quote_message("a\r\nb\n"), "> a\n> b\n\n");
    assert_eq!(quote_message("a\n\nb"), "> a\n> \n> b\n\n");
    assert_eq!(quote_message(""), "\n\n");
    assert_eq!(quote_message("a\r"), "> a\r\n\n");
}

#[test]
fn reply_quote_matches_lines() {
    for body in ["x", "x\ny", "x\r\n", "\n", "\r\n\r\n", "a\rb\nc"] {
        let expected = body
            .lines()
            .map(|l| "> ".to_owned() + l)
            .collect::<Vec<String>>()
            .join("\n")
            + "\n"
            + "\n";
        assert_eq!(quote_message(body), expected);
    }
}

#[test]
fn older_messages_source() {
    match request_more_messages(Some("t1".to_owned()), Some(5), Some("s".to_owned())) {
        Some(HistoryRequest::FromToken(t)) => assert_eq!(t, "t1"),
        _ => panic!("expected the previous batch"),
    }
    match request_more_messages(None, Some(5), Some("s".to_owned())) {
        Some(HistoryRequest::FromMessage(m)) => assert_eq!(m, 5),
        _ => panic!("expected the first message"),
    }
    match request_more_messages::<u8>(None, None, Some("s".to_owned())) {
        Some(HistoryRequest::FromToken(t)) => assert_eq!(t, "s"),
        _ => panic!("expected the since token"),
    }
    assert!(request_more_messages::<u8>(None, None, None).is_none());
}

#[test]
fn message_source() {
    let tr = translations();
    assert_eq!(message_source_text(&tr, Some("{}".to_owned())), "{}");
    assert_eq!(message_source_text(&tr, None), "This message has no source.");
}

#[test]
fn window_state() {
    assert_eq!(window_placement(true, 10, 10), WindowPlacement::Maximize);
    assert_eq!(window_placement(false, 10, 20), WindowPlacement::MoveTo(10, 20));
    assert_eq!(window_placement(false, 0, 20), WindowPlacement::Default);
    assert!(is_devel_build(Some("org.gnome.Fractal.Devel")));
    assert!(!is_devel_build(Some("org.gnome.Fractal")));
    assert!(!is_devel_build(Some("Dev")));
    assert!(!is_devel_build(None));
}

#[test]
fn media_viewer_is_left_before_reply_and_delete() {
    assert!(returns_from_media_viewer(MessageAction::Reply, true));
    assert!(returns_from_media_viewer(MessageAction::Delete, true));
    assert!(!returns_from_media_viewer(MessageAction::Reply, false));
    assert!(!returns_from_media_viewer(MessageAction::CopyText, true));
    assert_eq!(
        save_as_target(Some("mxc://a/b".to_owned()), "photo.png".to_owned()),
        Some(("mxc://a/b".to_owned(), "photo.png".to_owned()))
    );
    assert_eq!(save_as_target(None, "x".to_owned()), None);
}

#[test]
fn row_shows_another_room() {
    let mut row = RoomRow::new();
    assert_eq!(row.room(), None);
    assert!(row.set_room(None).is_none());
    let left = RowRoom {
        room_id: "!a:x".to_owned(),
        category: RoomType::Left,
        highlight: HighlightFlags::BOLD,
        notification_count: 0,
    };
    let u = row.set_room(Some(left.clone())).unwrap();
    assert_eq!(row.room(), Some(&"!a:x".to_owned()));
    assert!(u.dim_display_name);
    assert!(u.actions.join && u.actions.forget && !u.actions.leave);
    assert_eq!(u.highlight, Some(RowHighlight { notification_highlight: false, display_name_bold: true }));
    assert_eq!(u.notification_count_visible, Some(false));
    assert!(row.set_room(Some(left)).is_none());
    let normal = RowRoom {
        room_id: "!b:x".to_owned(),
        category: RoomType::Normal,
        highlight: HighlightFlags::HIGHLIGHT,
        notification_count: 3,
    };
    let v = row.set_room(Some(normal)).unwrap();
    assert!(!v.dim_display_name);
    assert!(v.actions.set_favorite && v.actions.leave && !v.actions.join);
    assert_eq!(v.notification_count_visible, Some(true));
    let w = row.set_room(None).unwrap();
    assert_eq!(row.room(), None);
    assert!(!w.actions.leave && !w.actions.join && !w.actions.accept_invite);
    assert_eq!(w.highlight, None);
}

#[test]
fn message_action_names() {
    assert_eq!(MessageAction::Reply.name(), "reply");
    assert_eq!(MessageAction::SaveAs.name(), "save_as");
    assert_eq!(MessageAction::RequestOlderMessages.name(), "request_older_messages");
    assert_eq!(MessageAction::ShowSource.name(), "show_source");
}

#[test]
fn public_room_row_keeps_its_entry() {
    let mut row = PublicRoomRow::new();
    assert_eq!(row.public_room(), None);
    assert!(matches!(row.set_public_room(None), PublicRoomUpdate::Unchanged));
    let loading = PublicRoom { entry_id: 1, info: None };
    assert!(matches!(row.set_public_room(Some(loading.clone())), PublicRoomUpdate::Show(PublicRoomContent::Loading)));
    assert_eq!(row.public_room(), Some(1));
    assert!(matches!(row.set_public_room(Some(loading)), PublicRoomUpdate::Unchanged));
    let loaded = PublicRoom {
        entry_id: 2,
        info: Some(PublicRoomInfo { name: Some("Rust".to_owned()), topic: None, canonical_alias: None, num_joined_members: 7 }),
    };
    match row.set_public_room(Some(loaded)) {
        PublicRoomUpdate::Show(PublicRoomContent::Loaded(d)) => {
            assert_eq!(d.display_name, "Rust");
            assert_eq!(d.members_count, "7");
        }
        _ => panic!("the room was described"),
    }
    assert_eq!(row.public_room(), Some(2));
    assert!(matches!(row.set_public_room(None), PublicRoomUpdate::Cleared));
    assert_eq!(row.public_room(), None);
}
