//! Properties that hold across the operations of the library.

use vstd::prelude::*;
use crate::invitee_list::{
    distinct_ids, has_id, is_current_search, is_member, listed_results, next_search_id,
    replace_id, selection_after, with_invitee, without_id, InviteeListModel, InviteeModel,
    SearchTicket,
};
use crate::message_file::kept_filename;
use crate::text::{ended_lines, quoted_lines, reply_quote, split_newlines, text_lines};
use crate::room::{
    composed_message, has_tag_event, markdown_html, opt_string_view, spec_category_from_tags,
    spec_category_of_kind, spec_event_effect, spec_request_for, spec_set_category,
    spec_shown_topic, with_member, CategoryChange, EventEffect, HighlightFlags, MatrixRoomKind,
    MessageKind, OutgoingMessage, RoomModel, RoomRequest, RoomTags, RoomType, TimelineEvent,
};
use crate::item_row::{spec_set_item, ChildUpdate, DividerLabel, RowChild, TimelineItemKind};
use crate::room_row::{spec_row_highlight, RoomRowEffect};
use crate::timeline_day_divider::spec_date_format;
use crate::room_row::{spec_action_effect, spec_action_enabled, RoomRowAction};
use crate::i18n::{translation_of, utf8_ready, TranslationsModel};
use crate::unicode::{char_is_lowercase, char_is_numeric, char_is_uppercase, char_is_whitespace};
use crate::utils::{
    parsed_mime, spec_default_name_msgid, spec_file_name, spec_mime_extension, MediaFallback,
    all_checks_pass, char_class, has_class, lemma_uid_of_valid_parts, passed_checks,
    password_validity, spec_media_uid, spec_uid_of_parts, valid_mxc_parts, CharClass, MediaSource,
};

verus! {

/// The category of a joined room comes from its tags: the favorite tag wins
/// over the low priority one, and a room without either tag, or whose tags
/// could not be loaded, is a normal room. An invite and a left room take
/// their category from their membership alone.
pub proof fn tags_decide_category(tags: Option<RoomTags>, kind: MatrixRoomKind)
    ensures
        (tags matches Some(t) && t.favorite) ==> spec_category_from_tags(tags) == RoomType::Favorite,
        (tags matches Some(t) && !t.favorite && t.low_priority) ==> spec_category_from_tags(tags)
            == RoomType::LowPriority,
        (tags is None || (tags matches Some(t) && !t.favorite && !t.low_priority))
            ==> spec_category_from_tags(tags) == RoomType::Normal,
        kind == MatrixRoomKind::Invited ==> spec_category_of_kind(kind) == Some(RoomType::Invited),
        kind == MatrixRoomKind::Left ==> spec_category_of_kind(kind) == Some(RoomType::Left),
        kind == MatrixRoomKind::Joined ==> spec_category_of_kind(kind) is None,
{
}

/// Where each action of a room row moves the room: accepting an invite,
/// joining and unsetting a tag make it a normal room; rejecting an invite
/// and leaving make it a left room; the two tags make it a favorite or a low
/// priority room; forgetting does not move it.
pub proof fn row_actions_targets(action: RoomRowAction)
    ensures
        (action == RoomRowAction::AcceptInvite || action == RoomRowAction::Join || action
            == RoomRowAction::UnsetFavorite || action == RoomRowAction::UnsetLowPriority)
            ==> spec_action_effect(action) == RoomRowEffect::SetCategory(RoomType::Normal),
        (action == RoomRowAction::RejectInvite || action == RoomRowAction::Leave)
            ==> spec_action_effect(action) == RoomRowEffect::SetCategory(RoomType::Left),
        action == RoomRowAction::SetFavorite ==> spec_action_effect(action)
            == RoomRowEffect::SetCategory(RoomType::Favorite),
        action == RoomRowAction::SetLowPriority ==> spec_action_effect(action)
            == RoomRowEffect::SetCategory(RoomType::LowPriority),
        action == RoomRowAction::Forget ==> spec_action_effect(action) == RoomRowEffect::Forget,
{
}

/// A row highlights the notification count exactly when the room has a
/// highlight, and shows the name in bold exactly when the room is bold.
pub proof fn row_highlight_follows_flags(flags: HighlightFlags)
    ensures
        spec_row_highlight(flags).notification_highlight <==> (flags == HighlightFlags::HIGHLIGHT
            || flags == HighlightFlags::HIGHLIGHT_BOLD),
        spec_row_highlight(flags).display_name_bold <==> (flags == HighlightFlags::BOLD || flags
            == HighlightFlags::HIGHLIGHT_BOLD),
{
}

/// What an item asks of its row: an event is shown by a state row when it
/// is a state event and by a message row otherwise, with the event's
/// actions; the two dividers by a divider row, bound to the date or
/// labelled "New Messages", and a spinner by a spinner, all without a menu;
/// a child of the wanted kind is kept, any other is replaced.
pub proof fn item_rows_show_items(item: TimelineItemKind, current: RowChild)
    ensures
        (item matches TimelineItemKind::Event { is_state, .. }) ==> {
            let wanted = if item->is_state {
                RowChild::StateRow
            } else {
                RowChild::MessageRow
            };
            &&& spec_set_item(item, current).event_actions
            &&& !spec_set_item(item, current).clear_menu
            &&& spec_set_item(item, current).label is None
            &&& current == wanted ==> spec_set_item(item, current).child == ChildUpdate::Reuse(wanted)
            &&& current != wanted ==> spec_set_item(item, current).child == ChildUpdate::Create(
                wanted,
            )
        },
        item == TimelineItemKind::DayDivider ==> spec_set_item(item, current).label == Some(
            DividerLabel::FormattedDate,
        ) && spec_set_item(item, current).clear_menu,
        item == TimelineItemKind::NewMessagesDivider ==> spec_set_item(item, current).label == Some(
            DividerLabel::NewMessages,
        ) && spec_set_item(item, current).clear_menu,
        (item == TimelineItemKind::DayDivider || item == TimelineItemKind::NewMessagesDivider)
            ==> (spec_set_item(item, current).child == ChildUpdate::Reuse(RowChild::DividerRow)
            <==> current == RowChild::DividerRow) && (spec_set_item(item, current).child
            == ChildUpdate::Create(RowChild::DividerRow) <==> current != RowChild::DividerRow),
        (item == TimelineItemKind::Spinner && current != RowChild::Spinner) ==> spec_set_item(
            item,
            current,
        ).child == ChildUpdate::Create(RowChild::Spinner) && spec_set_item(item, current).clear_menu,
        (item == TimelineItemKind::Spinner && current == RowChild::Spinner) ==> spec_set_item(
            item,
            current,
        ).child == ChildUpdate::Untouched,
        !(item is Event) ==> !spec_set_item(item, current).event_actions,
{
}

/// A topic is shown exactly when it holds a character that is not white
/// space, and then as it is.
pub proof fn topic_shown_when_visible(topic: Option<String>)
    ensures
        spec_shown_topic(topic) is Some <==> (topic matches Some(t) && exists|i: int|
            0 <= i < t@.len() && !char_is_whitespace(#[trigger] t@[i])),
        spec_shown_topic(topic) matches Some(t) ==> topic == Some(t),
{
}

/// What each timeline event asks of the room: a member event updates the
/// member who sent it, an avatar event shows its URL, a name event loads the
/// display name again, and a topic event tells that the topic changed.
pub proof fn events_update_the_room(event: TimelineEvent)
    ensures
        (event is RoomMember) ==> spec_event_effect(event) == EventEffect::UpdateMember,
        (event matches TimelineEvent::RoomAvatar { url }) ==> spec_event_effect(event)
            == EventEffect::SetAvatarUrl(event->url),
        (event is RoomName) ==> spec_event_effect(event) == EventEffect::ReloadDisplayName,
        (event is RoomTopic) ==> spec_event_effect(event) == EventEffect::NotifyTopic,
        (event is Other) ==> spec_event_effect(event) == EventEffect::NoEffect,
{
}

/// A day divider shows the year exactly when its date is not in the current
/// year.
pub proof fn divider_shows_year_of_other_years(date_year: i32, current_year: i32)
    ensures
        date_year == current_year ==> spec_date_format(date_year, current_year) == "%A, %B %e"@,
        date_year != current_year ==> spec_date_format(date_year, current_year)
            == "%A, %B %e, %Y"@,
{
}

/// A password passes the length check exactly when it has at least 8
/// characters, whatever their encoding.
pub proof fn length_check_counts_characters(password: Seq<char>)
    ensures
        password_validity(password).has_length <==> password.len() >= 8,
{
}

/// A body that starts with `/me ` makes an emote of what follows; any other
/// body makes a text of the whole body. With markdown enabled the message
/// carries the HTML rendered from its body; without, none.
pub proof fn emote_command_law(body: Seq<char>, markdown: bool, message: OutgoingMessage)
    requires
        composed_message(body, markdown, message),
    ensures
        (body.len() >= 4 && body[0] == '/' && body[1] == 'm' && body[2] == 'e' && body[3] == ' ')
            ==> message.kind == MessageKind::Emote && message.body@ == body.subrange(
            4,
            body.len() as int,
        ),
        !(body.len() >= 4 && body[0] == '/' && body[1] == 'm' && body[2] == 'e' && body[3] == ' ')
            ==> message.kind == MessageKind::Text && message.body@ == body,
        !markdown ==> message.formatted is None,
        markdown ==> opt_string_view(message.formatted) == markdown_html(message.body@),
{
    if body.len() >= 4 && body[0] == '/' && body[1] == 'm' && body[2] == 'e' && body[3] == ' ' {
        assert(body.take(4) =~= seq!['/', 'm', 'e', ' ']);
        assert(body.skip(4) =~= body.subrange(4, body.len() as int));
    } else if body.len() >= 4 {
        if body.take(4) == seq!['/', 'm', 'e', ' '] {
            assert(body.take(4)[0] == body[0]);
            assert(body.take(4)[1] == body[1]);
            assert(body.take(4)[2] == body[2]);
            assert(body.take(4)[3] == body[3]);
        }
    }
}

/// Whether the category is one of a joined room.
pub open spec fn is_joined_category(category: RoomType) -> bool {
    category == RoomType::Favorite || category == RoomType::Normal || category
        == RoomType::LowPriority
}

/// The menu of a room row, for every category: a joined room can be left;
/// only an invite can be accepted or rejected; only a left room can be
/// joined or forgotten; a room can be made a favorite exactly when it is a
/// normal or low priority room, and stop being one exactly when it is a
/// favorite; it can be given low priority exactly when it is a favorite or a
/// normal room, and lose it exactly when it has it. No action is offered
/// without a room, nor for an outdated room or a space.
pub proof fn room_row_menu(category: Option<RoomType>)
    ensures
        spec_action_enabled(category, RoomRowAction::Leave) <==> (category matches Some(c)
            && is_joined_category(c)),
        spec_action_enabled(category, RoomRowAction::AcceptInvite) <==> category == Some(
            RoomType::Invited,
        ),
        spec_action_enabled(category, RoomRowAction::RejectInvite) <==> category == Some(
            RoomType::Invited,
        ),
        spec_action_enabled(category, RoomRowAction::Join) <==> category == Some(RoomType::Left),
        spec_action_enabled(category, RoomRowAction::Forget) <==> category == Some(RoomType::Left),
        spec_action_enabled(category, RoomRowAction::SetFavorite) <==> (category == Some(
            RoomType::Normal,
        ) || category == Some(RoomType::LowPriority)),
        spec_action_enabled(category, RoomRowAction::UnsetFavorite) <==> category == Some(
            RoomType::Favorite,
        ),
        spec_action_enabled(category, RoomRowAction::SetLowPriority) <==> (category == Some(
            RoomType::Favorite,
        ) || category == Some(RoomType::Normal)),
        spec_action_enabled(category, RoomRowAction::UnsetLowPriority) <==> category == Some(
            RoomType::LowPriority,
        ),
{
}

/// The request that moves a room to a joined category follows its
/// membership: an invite is accepted, a left room is joined, and a joined
/// room needs no request. Moving a room to the left category rejects an
/// invite and leaves a joined room.
pub proof fn joining_requests(category: RoomType)
    requires
        is_joined_category(category),
    ensures
        spec_request_for(MatrixRoomKind::Invited, category) == RoomRequest::AcceptInvitation,
        spec_request_for(MatrixRoomKind::Left, category) == RoomRequest::Join,
        spec_request_for(MatrixRoomKind::Joined, category) == RoomRequest::NoRequest,
        spec_request_for(MatrixRoomKind::Invited, RoomType::Left) == RoomRequest::RejectInvitation,
        spec_request_for(MatrixRoomKind::Joined, RoomType::Left) == RoomRequest::Leave,
{
}

/// Moving an invite to a joined category moves it there and accepts the
/// invitation; moving a left room there joins it again.
pub proof fn moving_to_a_joined_category(room: RoomModel, category: RoomType)
    requires
        is_joined_category(category),
        room.category != category,
        room.kind is Some,
    ensures
        room.kind == Some(MatrixRoomKind::Invited) ==> spec_set_category(room, category)
            == (RoomModel { category, ..room }, CategoryChange::Moved(
            RoomRequest::AcceptInvitation,
        )),
        room.kind == Some(MatrixRoomKind::Left) ==> spec_set_category(room, category) == (
        RoomModel { category, ..room }, CategoryChange::Moved(RoomRequest::Join)),
{
}

/// A sync response asks to load the category again exactly when one of its
/// account-data events, wherever it stands, is a tag event.
pub proof fn any_tag_event_reloads(account_data_is_tag: Seq<bool>, i: int)
    ensures
        0 <= i < account_data_is_tag.len() && account_data_is_tag[i] ==> has_tag_event(
            account_data_is_tag,
        ),
        has_tag_event(account_data_is_tag) ==> exists|j: int|
            0 <= j < account_data_is_tag.len() && account_data_is_tag[j],
        (forall|j: int| 0 <= j < account_data_is_tag.len() ==> !account_data_is_tag[j])
            ==> !has_tag_event(account_data_is_tag),
{
}

/// How a password character counts, by the character predicates of the
/// standard library: a numeric character is a number; else a lowercase one
/// is a lowercase letter; else an uppercase one, whatever its script, is an
/// uppercase letter; anything else is a symbol.
pub proof fn password_character_classes(c: char)
    ensures
        char_is_numeric(c) ==> char_class(c) == CharClass::Number,
        !char_is_numeric(c) && char_is_lowercase(c) ==> char_class(c) == CharClass::Lowercase,
        !char_is_numeric(c) && !char_is_lowercase(c) && char_is_uppercase(c) ==> char_class(c)
            == CharClass::Uppercase,
        !char_is_numeric(c) && !char_is_lowercase(c) && !char_is_uppercase(c) ==> char_class(c)
            == CharClass::Symbol,
{
}

/// A password holding an uppercase character that is neither numeric nor
/// lowercase passes the uppercase check, whatever the script of that
/// character.
pub proof fn uppercase_character_passes_check(password: Seq<char>, i: int)
    requires
        0 <= i < password.len(),
        !char_is_numeric(password[i]),
        !char_is_lowercase(password[i]),
        char_is_uppercase(password[i]),
    ensures
        password_validity(password).has_uppercase,
{
    assert(char_class(password[i]) == CharClass::Uppercase);
}

/// The top-level type of a mime type that parses.
pub open spec fn parsed_top_type(mime: Option<Seq<char>>) -> Option<Seq<char>> {
    match mime {
        Some(m) => match parsed_mime(m) {
            Some((top, _)) => Some(top),
            None => None,
        },
        None => None,
    }
}

/// Without a mime type that parses, the default file name follows the
/// fallback: an image, a video or an audio file is named after its kind, and
/// anything else `file`; a parsed mime type of one of these kinds gives the
/// same name as the fallback of that kind.
pub proof fn default_name_follows_fallback(
    mime: Option<Seq<char>>,
    fallback: Option<MediaFallback>,
)
    ensures
        (mime is None || parsed_mime(mime->0) is None) ==> spec_default_name_msgid(mime, fallback)
            == if fallback == Some(MediaFallback::Image) {
            "image"@
        } else if fallback == Some(MediaFallback::Video) {
            "video"@
        } else if fallback == Some(MediaFallback::Audio) {
            "audio"@
        } else {
            "file"@
        },
        parsed_top_type(mime) matches Some(top) ==> ((top == "image"@ || top == "video"@ || top
            == "audio"@) ==> spec_default_name_msgid(mime, fallback) == top),
        parsed_top_type(mime) == Some("video"@) ==> spec_default_name_msgid(mime, fallback)
            == spec_default_name_msgid(None, Some(MediaFallback::Video)),
{
}

/// Every action that a room row enables for a room moves the room when it
/// sets a category: the category is another one than the room's, and not
/// the invite category, so `Room::set_category` moves the room there.
pub proof fn enabled_row_action_moves_room(room: RoomModel, action: RoomRowAction)
    requires
        room.kind is Some,
        spec_action_enabled(Some(room.category), action),
        spec_action_effect(action) is SetCategory,
    ensures
        ({
            let target = spec_action_effect(action)->SetCategory_0;
            &&& target != room.category
            &&& target != RoomType::Invited
            &&& spec_set_category(room, target).1 is Moved
            &&& spec_set_category(room, target).0.category == target
        }),
{
}

/// Forgetting a room is only offered for a room that was left.
pub proof fn forget_only_for_left_rooms(category: Option<RoomType>)
    requires
        spec_action_enabled(category, RoomRowAction::Forget),
    ensures
        category == Some(RoomType::Left),
{
}

/// Setting the same category twice moves the room at most once: the second
/// time leaves the room as it is and sends nothing.
pub proof fn set_category_twice_moves_once(room: RoomModel, category: RoomType)
    ensures
        !(spec_set_category(spec_set_category(room, category).0, category).1 is Moved),
        spec_set_category(spec_set_category(room, category).0, category).0 == spec_set_category(
            room,
            category,
        ).0,
{
}

/// Rooms can't be moved to the invite category: the attempt leaves the room
/// as it was.
pub proof fn invite_category_is_never_set(room: RoomModel)
    ensures
        spec_set_category(room, RoomType::Invited).0 == room,
        spec_set_category(room, RoomType::Invited).1 is Refused || room.category
            == RoomType::Invited,
{
}

/// Looking a member up registers it, and looking it up again changes nothing.
pub proof fn member_lookup_is_idempotent(members: Seq<Seq<char>>, user_id: Seq<char>)
    ensures
        with_member(members, user_id).contains(user_id),
        with_member(with_member(members, user_id), user_id) == with_member(members, user_id),
{
    if !members.contains(user_id) {
        assert(members.push(user_id)[members.len() as int] == user_id);
    }
}

/// A password passes all the checks exactly when its progress is 100.
pub proof fn full_progress_iff_valid(chars: Seq<char>)
    ensures
        password_validity(chars).progress == 100 <==> all_checks_pass(
            password_validity(chars),
        ),
        password_validity(chars).progress == passed_checks(
            password_validity(chars),
        ) * 20,
        password_validity(chars).progress <= 100,
{
}

/// Appending characters to a password never undoes a check that it passed,
/// and never lowers its progress.
pub proof fn appending_keeps_passed_checks(p: Seq<char>, q: Seq<char>)
    ensures
        password_validity(p).has_number ==> password_validity(p + q).has_number,
        password_validity(p).has_lowercase ==> password_validity(p + q).has_lowercase,
        password_validity(p).has_uppercase ==> password_validity(p + q).has_uppercase,
        password_validity(p).has_symbol ==> password_validity(p + q).has_symbol,
        password_validity(p).has_length ==> password_validity(p + q).has_length,
        password_validity(p + q).progress >= password_validity(p).progress,
{
    assert forall|class: CharClass| has_class(p, class) implies has_class(p + q, class) by {
        let j = choose|j: int| 0 <= j < p.len() && #[trigger] char_class(p[j]) == class;
        assert((p + q)[j] == p[j]);
    }
}

/// The id of a media identifies it: two valid MXC URIs whose parts give the
/// same id are the same URI.
pub proof fn media_uid_identifies_uri(
    uri1: Seq<char>,
    server1: Seq<char>,
    media1: Seq<char>,
    uri2: Seq<char>,
    server2: Seq<char>,
    media2: Seq<char>,
)
    requires
        valid_mxc_parts(uri1, server1, media1),
        valid_mxc_parts(uri2, server2, media2),
        spec_uid_of_parts(Some((server1, media1))) == spec_uid_of_parts(Some((server2, media2))),
    ensures
        uri1 == uri2,
{
    lemma_uid_of_valid_parts(uri1, server1, media1);
    lemma_uid_of_valid_parts(uri2, server2, media2);
    let uid1 = server1 + seq!['_'] + media1;
    let uid2 = server2 + seq!['_'] + media2;
    assert(uid1 == uid2);
    if server1.len() < server2.len() {
        assert(uid1[server1.len() as int] == '_');
        assert(uid2[server1.len() as int] == server2[server1.len() as int]);
    }
    if server2.len() < server1.len() {
        assert(uid2[server2.len() as int] == '_');
        assert(uid1[server2.len() as int] == server1[server2.len() as int]);
    }
    assert(server1.len() == server2.len());
    assert(server1 =~= server2) by {
        assert forall|i: int| 0 <= i < server1.len() implies server1[i] == server2[i] by {
            assert(uid1[i] == server1[i]);
            assert(uid2[i] == server2[i]);
        }
    }
    assert(media1 =~= media2) by {
        assert(media1.len() == media2.len());
        assert forall|i: int| 0 <= i < media1.len() implies media1[i] == media2[i] by {
            assert(uid1[server1.len() + 1 + i] == media1[i]);
            assert(uid2[server2.len() + 1 + i] == media2[i]);
        }
    }
}

/// A media gets the same id whether its file is encrypted or not: the id
/// depends on its MXC URI alone.
pub proof fn encrypted_media_shares_uid(uri: String)
    ensures
        spec_media_uid(Some(MediaSource::Encrypted(uri))) == spec_media_uid(
            Some(MediaSource::Plain(uri)),
        ),
{
}

/// Once a later search started, the response to the search before it is
/// never applied to the list.
pub proof fn started_search_supersedes_earlier(
    before: InviteeListModel,
    after: InviteeListModel,
    earlier: SearchTicket,
)
    requires
        earlier.id == before.search_id,
        after.search_id == next_search_id(before.search_id),
    ensures
        !is_current_search(after, earlier),
{
}

/// For a valid mime type, the default file name does not depend on the
/// fallback: its message id is the same whatever the fallback.
pub proof fn valid_mime_ignores_fallback(
    mime: Seq<char>,
    fallback1: Option<MediaFallback>,
    fallback2: Option<MediaFallback>,
)
    requires
        parsed_mime(mime) is Some,
    ensures
        spec_default_name_msgid(Some(mime), fallback1) == spec_default_name_msgid(
            Some(mime),
            fallback2,
        ),
{
}

/// Where translations cannot be looked up, `filename_for_mime` gives the
/// same name for a valid mime type whatever the fallback.
pub proof fn untranslated_names_ignore_fallback(
    translations: TranslationsModel,
    mime: Seq<char>,
    fallback1: Option<MediaFallback>,
    fallback2: Option<MediaFallback>,
    name1: Seq<char>,
    name2: Seq<char>,
)
    requires
        parsed_mime(mime) is Some,
        !utf8_ready(translations),
        exists|t: Seq<char>|
            translation_of(translations, spec_default_name_msgid(Some(mime), fallback1), t)
                && name1 == spec_file_name(t, spec_mime_extension(Some(mime))),
        exists|t: Seq<char>|
            translation_of(translations, spec_default_name_msgid(Some(mime), fallback2), t)
                && name2 == spec_file_name(t, spec_mime_extension(Some(mime))),
    ensures
        name1 == name2,
{
}

/// Every character of a password passes one of the checks on characters, so
/// a password that is not empty makes progress.
pub proof fn nonempty_password_makes_progress(chars: Seq<char>)
    requires
        chars.len() > 0,
    ensures
        password_validity(chars).progress >= 20,
{
    let c = char_class(chars[0]);
    assert(has_class(chars, c));
}

/// After a user is selected, it is selected; unselecting it then leaves the
/// selection as it was without that user.
pub proof fn select_then_unselect(selected: Seq<InviteeModel>, user: InviteeModel)
    requires
        distinct_ids(selected),
    ensures
        has_id(with_invitee(selected, user), user.user_id),
        !has_id(without_id(with_invitee(selected, user), user.user_id), user.user_id),
{
    if has_id(selected, user.user_id) {
        let i = choose|i: int| 0 <= i < selected.len() && (#[trigger] selected[i]).user_id == user.user_id;
        assert(with_invitee(selected, user)[i] == user);
    } else {
        assert(with_invitee(selected, user)[selected.len() as int] == user);
    }
    lemma_without_id_removes(with_invitee(selected, user), user.user_id);
}

/// No invitee with the id is left after removing it.
proof fn lemma_without_id_removes(s: Seq<InviteeModel>, id: Seq<char>)
    ensures
        !has_id(without_id(s, id), id),
    decreases s.len(),
{
    if s.len() > 0 {
        lemma_without_id_removes(s.drop_last(), id);
        let w = without_id(s, id);
        if s.last().user_id != id {
            let before = without_id(s.drop_last(), id);
            assert forall|i: int| 0 <= i < w.len() implies (#[trigger] w[i]).user_id != id by {
                if i < before.len() {
                    assert(w[i] == before[i]);
                }
            }
        }
    }
}

/// The search lists exactly the results that are not members of the room
/// already, in their order: no member is listed, and every other result is.
pub proof fn search_lists_no_member(results: Seq<InviteeModel>, members: Seq<String>)
    ensures
        forall|k: int|
            0 <= k < listed_results(results, members).len() ==> !is_member(
                members,
                #[trigger] listed_results(results, members)[k].user_id,
            ),
        forall|k: int|
            0 <= k < results.len() && !is_member(members, results[k].user_id) ==> listed_results(
                results,
                members,
            ).contains(#[trigger] results[k]),
    decreases results.len(),
{
    if results.len() > 0 {
        let init = results.drop_last();
        search_lists_no_member(init, members);
        let l = listed_results(results, members);
        let li = listed_results(init, members);
        assert forall|k: int|
            0 <= k < results.len() && !is_member(members, results[k].user_id) implies l.contains(
            #[trigger] results[k],
        ) by {
            if k < results.len() - 1 {
                assert(init[k] == results[k]);
                assert(li.contains(init[k]));
                let j = choose|j: int| 0 <= j < li.len() && li[j] == init[k];
                if !is_member(members, results.last().user_id) {
                    assert(l[j] == li[j]);
                }
            } else {
                assert(l[l.len() - 1] == results[k]);
            }
        }
        assert forall|k: int| 0 <= k < l.len() implies !is_member(members, #[trigger] l[k].user_id) by {
            if k < li.len() {
                assert(l[k] == li[k]);
            }
        }
    }
}

/// Removing or replacing an invitee of another id does not select `id`.
proof fn lemma_other_ids_keep_absence(s: Seq<InviteeModel>, id: Seq<char>, other: InviteeModel)
    requires
        !has_id(s, id),
    ensures
        !has_id(without_id(s, other.user_id), id),
        other.user_id != id ==> !has_id(replace_id(s, other), id),
    decreases s.len(),
{
    if s.len() > 0 {
        assert(!has_id(s.drop_last(), id)) by {
            if has_id(s.drop_last(), id) {
                let i = choose|i: int| 0 <= i < s.drop_last().len() && (#[trigger] s.drop_last()[i]).user_id == id;
                assert(s[i].user_id == id);
            }
        }
        lemma_other_ids_keep_absence(s.drop_last(), id, other);
        let w = without_id(s, other.user_id);
        let wi = without_id(s.drop_last(), other.user_id);
        assert forall|i: int| 0 <= i < w.len() implies (#[trigger] w[i]).user_id != id by {
            if i < wi.len() {
                assert(w[i] == wi[i]);
            } else {
                assert(w[i] == s.last());
            }
        }
    }
    if other.user_id != id {
        let r = replace_id(s, other);
        assert forall|i: int| 0 <= i < r.len() implies (#[trigger] r[i]).user_id != id by {
            assert(s[i].user_id != id);
        }
    }
}

/// After a search, no result that is a member of the room is selected.
pub proof fn search_unselects_members(
    selected: Seq<InviteeModel>,
    results: Seq<InviteeModel>,
    members: Seq<String>,
    k: int,
)
    requires
        0 <= k < results.len(),
        is_member(members, results[k].user_id),
    ensures
        !has_id(selection_after(selected, results, members), results[k].user_id),
    decreases results.len(),
{
    let id = results[k].user_id;
    let init = results.drop_last();
    let before = selection_after(selected, init, members);
    let r = results.last();
    if k == results.len() - 1 {
        lemma_without_id_removes(before, id);
    } else {
        assert(init[k] == results[k]);
        search_unselects_members(selected, init, members, k);
        lemma_other_ids_keep_absence(before, id, r);
        if r.user_id == id {
            lemma_without_id_removes(before, id);
        }
    }
}

/// An empty filename is kept as no filename, and setting a filename twice
/// changes it at most once.
pub proof fn empty_filename_is_none(name: Option<Seq<char>>)
    ensures
        kept_filename(Some(Seq::<char>::empty())) is None,
        kept_filename(kept_filename(name)) == kept_filename(name),
{
}

/// The lines of a text without a newline are the text itself, when it is
/// not empty.
proof fn lemma_split_without_newline(s: Seq<char>)
    requires
        forall|i: int| 0 <= i < s.len() ==> s[i] != '\n',
    ensures
        split_newlines(s) == seq![s],
    decreases s.len(),
{
    if s.len() > 0 {
        let init = s.drop_last();
        assert forall|i: int| 0 <= i < init.len() implies init[i] != '\n' by {
            assert(init[i] == s[i]);
        }
        lemma_split_without_newline(init);
        assert(s.last() != '\n');
        assert(init.push(s.last()) =~= s);
        assert(split_newlines(s) == split_newlines(init).update(0, init.push(s.last())));
        assert(seq![init].update(0, s) =~= seq![s]);
    } else {
        assert(s =~= Seq::<char>::empty());
    }
}

/// Replying to a message of one line quotes that line: the quote is `"> "`,
/// the body and two newlines.
pub proof fn single_line_quote(body: Seq<char>)
    requires
        body.len() > 0,
        forall|i: int| 0 <= i < body.len() ==> body[i] != '\n',
    ensures
        reply_quote(body) == seq!['>', ' '] + body + seq!['\n', '\n'],
{
    lemma_split_without_newline(body);
    let pieces = split_newlines(body);
    assert(pieces.drop_last() =~= Seq::<Seq<char>>::empty());
    assert(ended_lines(pieces) =~= Seq::<Seq<char>>::empty());
    assert(text_lines(body) =~= seq![body]);
    assert(quoted_lines(text_lines(body)) =~= seq![seq!['>', ' '] + body]);
}

/// Replying to a message with an empty body quotes nothing but the empty line.
pub proof fn empty_body_quote()
    ensures
        reply_quote(Seq::<char>::empty()) == seq!['\n', '\n'],
{
    let pieces = split_newlines(Seq::<char>::empty());
    assert(pieces =~= seq![Seq::<char>::empty()]);
    assert(text_lines(Seq::<char>::empty()) =~= Seq::<Seq<char>>::empty());
    assert(quoted_lines(text_lines(Seq::<char>::empty())) =~= Seq::<Seq<char>>::empty());
}

} // verus!
