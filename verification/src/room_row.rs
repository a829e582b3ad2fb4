//! The row of a room in the sidebar: which of its menu actions are enabled,
//! where each action moves the room, and how the row is highlighted.

use vstd::prelude::*;
use crate::room::{HighlightFlags, RoomType};
use crate::text::same_text;

verus! {

/// An action of the menu of a room row.
#[derive(Debug, Clone, Copy, PartialEq, Eq, Structural)]
pub enum RoomRowAction {
    AcceptInvite,
    RejectInvite,
    SetFavorite,
    UnsetFavorite,
    SetLowPriority,
    UnsetLowPriority,
    Leave,
    Join,
    Forget,
}

/// What an action of a room row does.
#[derive(Debug, Clone, Copy, PartialEq, Eq, Structural)]
pub enum RoomRowEffect {
    /// Move the room to the given category.
    SetCategory(RoomType),
    /// Forget the room.
    Forget,
}

/// What the action does.
pub open spec fn spec_action_effect(action: RoomRowAction) -> RoomRowEffect {
    match action {
        RoomRowAction::AcceptInvite => RoomRowEffect::SetCategory(RoomType::Normal),
        RoomRowAction::RejectInvite => RoomRowEffect::SetCategory(RoomType::Left),
        RoomRowAction::SetFavorite => RoomRowEffect::SetCategory(RoomType::Favorite),
        RoomRowAction::UnsetFavorite => RoomRowEffect::SetCategory(RoomType::Normal),
        RoomRowAction::SetLowPriority => RoomRowEffect::SetCategory(RoomType::LowPriority),
        RoomRowAction::UnsetLowPriority => RoomRowEffect::SetCategory(RoomType::Normal),
        RoomRowAction::Leave => RoomRowEffect::SetCategory(RoomType::Left),
        RoomRowAction::Join => RoomRowEffect::SetCategory(RoomType::Normal),
        RoomRowAction::Forget => RoomRowEffect::Forget,
    }
}

/// Whether the action is enabled for a room of the given category; no action
/// is enabled without a room, nor for an outdated room or a space.
pub open spec fn spec_action_enabled(category: Option<RoomType>, action: RoomRowAction) -> bool {
    match category {
        None => false,
        Some(RoomType::Invited) => action == RoomRowAction::AcceptInvite || action
            == RoomRowAction::RejectInvite,
        Some(RoomType::Favorite) => action == RoomRowAction::UnsetFavorite || action
            == RoomRowAction::SetLowPriority || action == RoomRowAction::Leave,
        Some(RoomType::Normal) => action == RoomRowAction::SetFavorite || action
            == RoomRowAction::SetLowPriority || action == RoomRowAction::Leave,
        Some(RoomType::LowPriority) => action == RoomRowAction::SetFavorite || action
            == RoomRowAction::UnsetLowPriority || action == RoomRowAction::Leave,
        Some(RoomType::Left) => action == RoomRowAction::Join || action == RoomRowAction::Forget,
        Some(RoomType::Outdated) | Some(RoomType::Space) => false,
    }
}

/// Which actions of a room row are enabled.
#[derive(Debug, Clone, Copy, PartialEq, Eq, Structural)]
pub struct RoomRowActions {
    pub accept_invite: bool,
    pub reject_invite: bool,
    pub set_favorite: bool,
    pub unset_favorite: bool,
    pub set_lowpriority: bool,
    pub unset_lowpriority: bool,
    pub leave: bool,
    pub join: bool,
    pub forget: bool,
}

impl RoomRowActions {
    /// Whether the given action is enabled.
    pub open spec fn spec_enabled(self, action: RoomRowAction) -> bool {
        match action {
            RoomRowAction::AcceptInvite => self.accept_invite,
            RoomRowAction::RejectInvite => self.reject_invite,
            RoomRowAction::SetFavorite => self.set_favorite,
            RoomRowAction::UnsetFavorite => self.unset_favorite,
            RoomRowAction::SetLowPriority => self.set_lowpriority,
            RoomRowAction::UnsetLowPriority => self.unset_lowpriority,
            RoomRowAction::Leave => self.leave,
            RoomRowAction::Join => self.join,
            RoomRowAction::Forget => self.forget,
        }
    }

    /// Whether the given action is enabled.
    pub fn is_enabled(&self, action: RoomRowAction) -> (enabled: bool)
        ensures
            enabled == self.spec_enabled(action),
    {
        match action {
            RoomRowAction::AcceptInvite => self.accept_invite,
            RoomRowAction::RejectInvite => self.reject_invite,
            RoomRowAction::SetFavorite => self.set_favorite,
            RoomRowAction::UnsetFavorite => self.unset_favorite,
            RoomRowAction::SetLowPriority => self.set_lowpriority,
            RoomRowAction::UnsetLowPriority => self.unset_lowpriority,
            RoomRowAction::Leave => self.leave,
            RoomRowAction::Join => self.join,
            RoomRowAction::Forget => self.forget,
        }
    }
}

/// The name under which the action is installed on the row.
pub fn action_name(action: RoomRowAction) -> (name: &'static str)
    ensures
        action == RoomRowAction::AcceptInvite ==> name@ == "room-row.accept-invite"@,
        action == RoomRowAction::RejectInvite ==> name@ == "room-row.reject-invite"@,
        action == RoomRowAction::SetFavorite ==> name@ == "room-row.set-favorite"@,
        action == RoomRowAction::UnsetFavorite ==> name@ == "room-row.unset-favorite"@,
        action == RoomRowAction::SetLowPriority ==> name@ == "room-row.set-lowpriority"@,
        action == RoomRowAction::UnsetLowPriority ==> name@ == "room-row.unset-lowpriority"@,
        action == RoomRowAction::Leave ==> name@ == "room-row.leave"@,
        action == RoomRowAction::Join ==> name@ == "room-row.join"@,
        action == RoomRowAction::Forget ==> name@ == "room-row.forget"@,
{
    match action {
        RoomRowAction::AcceptInvite => "room-row.accept-invite",
        RoomRowAction::RejectInvite => "room-row.reject-invite",
        RoomRowAction::SetFavorite => "room-row.set-favorite",
        RoomRowAction::UnsetFavorite => "room-row.unset-favorite",
        RoomRowAction::SetLowPriority => "room-row.set-lowpriority",
        RoomRowAction::UnsetLowPriority => "room-row.unset-lowpriority",
        RoomRowAction::Leave => "room-row.leave",
        RoomRowAction::Join => "room-row.join",
        RoomRowAction::Forget => "room-row.forget",
    }
}

/// What the action does.
pub fn action_effect(action: RoomRowAction) -> (effect: RoomRowEffect)
    ensures
        effect == spec_action_effect(action),
{
    match action {
        RoomRowAction::AcceptInvite => RoomRowEffect::SetCategory(RoomType::Normal),
        RoomRowAction::RejectInvite => RoomRowEffect::SetCategory(RoomType::Left),
        RoomRowAction::SetFavorite => RoomRowEffect::SetCategory(RoomType::Favorite),
        RoomRowAction::UnsetFavorite => RoomRowEffect::SetCategory(RoomType::Normal),
        RoomRowAction::SetLowPriority => RoomRowEffect::SetCategory(RoomType::LowPriority),
        RoomRowAction::UnsetLowPriority => RoomRowEffect::SetCategory(RoomType::Normal),
        RoomRowAction::Leave => RoomRowEffect::SetCategory(RoomType::Left),
        RoomRowAction::Join => RoomRowEffect::SetCategory(RoomType::Normal),
        RoomRowAction::Forget => RoomRowEffect::Forget,
    }
}

/// The CSS classes of a row that show its highlight.
#[derive(Debug, Clone, Copy, PartialEq, Eq, Structural)]
pub struct RowHighlight {
    /// Whether the notification count has the `highlight` class.
    pub notification_highlight: bool,
    /// Whether the display name has the `bold` class.
    pub display_name_bold: bool,
}

/// What a row reads of the room it shows.
#[derive(Debug, Clone)]
pub struct RowRoom {
    pub room_id: String,
    pub category: RoomType,
    pub highlight: HighlightFlags,
    pub notification_count: u64,
}

/// What changes on a row when it shows another room, or none.
#[derive(Debug, Clone, Copy, PartialEq, Eq, Structural)]
pub struct RoomRowUpdate {
    /// Which actions are enabled.
    pub actions: RoomRowActions,
    /// Whether the display name is dimmed.
    pub dim_display_name: bool,
    /// The highlight classes, when there is a room to read them from.
    pub highlight: Option<RowHighlight>,
    /// Whether the notification count is shown, when there is a room to read
    /// it from.
    pub notification_count_visible: Option<bool>,
}

/// The id of the room a row shows, if any.
pub open spec fn row_room_id(room: Option<RowRoom>) -> Option<Seq<char>> {
    match room {
        Some(r) => Some(r.room_id@),
        None => None,
    }
}

/// The highlight classes of a row for the given highlight flags: the
/// notification count is highlighted for a highlight, the name is bold for
/// bold.
pub open spec fn spec_row_highlight(flags: HighlightFlags) -> RowHighlight {
    RowHighlight {
        notification_highlight: flags == HighlightFlags::HIGHLIGHT || flags
            == HighlightFlags::HIGHLIGHT_BOLD,
        display_name_bold: flags == HighlightFlags::BOLD || flags == HighlightFlags::HIGHLIGHT_BOLD,
    }
}

/// A row of the sidebar, showing a room or none.
pub struct RoomRow {
    room_id: Option<String>,
}

impl View for RoomRow {
    type V = Option<Seq<char>>;

    /// The id of the room the row shows.
    closed spec fn view(&self) -> Option<Seq<char>> {
        match self.room_id {
            Some(id) => Some(id@),
            None => None,
        }
    }
}

impl RoomRow {
    /// A row that shows no room.
    pub fn new() -> (row: Self)
        ensures
            row@ is None,
    {
        RoomRow { room_id: None }
    }

    /// The id of the room the row shows.
    pub fn room(&self) -> (room_id: Option<&String>)
        ensures
            match room_id {
                Some(id) => self@ == Some(id@),
                None => self@ is None,
            },
    {
        match &self.room_id {
            Some(id) => Some(id),
            None => None,
        }
    }

    /// Show another room, or none. Nothing changes when the row shows that
    /// room already; else the row shows it, and the returned update gives the
    /// enabled actions for its category, dims the name of a left room, and
    /// gives the highlight and the visibility of the notification count of
    /// the new room.
    pub fn set_room(&mut self, room: Option<RowRoom>) -> (update: Option<RoomRowUpdate>)
        ensures
            row_room_id(room) == old(self)@ ==> update is None && final(self)@ == old(self)@,
            row_room_id(room) != old(self)@ ==> {
                &&& final(self)@ == row_room_id(room)
                &&& update matches Some(u)
                &&& forall|a: RoomRowAction| #[trigger] u.actions.spec_enabled(a)
                    == spec_action_enabled(
                    match room {
                        Some(r) => Some(r.category),
                        None => None,
                    },
                    a,
                )
                &&& u.dim_display_name == (room matches Some(r) && r.category == RoomType::Left)
                &&& match room {
                    Some(r) => u.highlight == Some(spec_row_highlight(r.highlight))
                        && u.notification_count_visible == Some(r.notification_count > 0),
                    None => u.highlight is None && u.notification_count_visible is None,
                }
            },
    {
        let same = match (&room, &self.room_id) {
            (Some(r), Some(id)) => same_text(&r.room_id, id),
            (None, None) => true,
            _ => false,
        };
        if same {
            return None;
        }
        match room {
            Some(r) => {
                let update = RoomRowUpdate {
                    actions: Self::update_actions(Some(r.category)),
                    dim_display_name: Self::dims_display_name(r.category),
                    highlight: Some(Self::set_highlight(r.highlight)),
                    notification_count_visible: Some(Self::shows_notification_count(
                        r.notification_count,
                    )),
                };
                self.room_id = Some(r.room_id);
                Some(update)
            },
            None => {
                self.room_id = None;
                Some(
                    RoomRowUpdate {
                        actions: Self::update_actions(None),
                        dim_display_name: false,
                        highlight: None,
                        notification_count_visible: None,
                    },
                )
            },
        }
    }

    /// Which actions are enabled for a row showing a room of the given
    /// category, or no room.
    pub fn update_actions(category: Option<RoomType>) -> (actions: RoomRowActions)
        ensures
            forall|a: RoomRowAction| #[trigger] actions.spec_enabled(a) == spec_action_enabled(category, a),
    {
        let none = RoomRowActions {
            accept_invite: false,
            reject_invite: false,
            set_favorite: false,
            unset_favorite: false,
            set_lowpriority: false,
            unset_lowpriority: false,
            leave: false,
            join: false,
            forget: false,
        };
        match category {
            Some(RoomType::Invited) => RoomRowActions { accept_invite: true, reject_invite: true, ..none },
            Some(RoomType::Favorite) => RoomRowActions {
                unset_favorite: true,
                set_lowpriority: true,
                leave: true,
                ..none
            },
            Some(RoomType::Normal) => RoomRowActions {
                set_favorite: true,
                set_lowpriority: true,
                leave: true,
                ..none
            },
            Some(RoomType::LowPriority) => RoomRowActions {
                set_favorite: true,
                unset_lowpriority: true,
                leave: true,
                ..none
            },
            Some(RoomType::Left) => RoomRowActions { join: true, forget: true, ..none },
            Some(RoomType::Outdated) | Some(RoomType::Space) | None => none,
        }
    }

    /// The highlight classes of the row for the room's highlight flags.
    pub fn set_highlight(flags: HighlightFlags) -> (classes: RowHighlight)
        ensures
            classes == spec_row_highlight(flags),
    {
        match flags {
            HighlightFlags::NONE => RowHighlight {
                notification_highlight: false,
                display_name_bold: false,
            },
            HighlightFlags::HIGHLIGHT => RowHighlight {
                notification_highlight: true,
                display_name_bold: false,
            },
            HighlightFlags::BOLD => RowHighlight {
                notification_highlight: false,
                display_name_bold: true,
            },
            HighlightFlags::HIGHLIGHT_BOLD => RowHighlight {
                notification_highlight: true,
                display_name_bold: true,
            },
        }
    }

    /// Whether the display name of a room of the given category is dimmed:
    /// it is for a left room.
    pub fn dims_display_name(category: RoomType) -> (dim: bool)
        ensures
            dim == (category == RoomType::Left),
    {
        category == RoomType::Left
    }

    /// Whether the notification count of a room is shown.
    pub fn shows_notification_count(notification_count: u64) -> (visible: bool)
        ensures
            visible == (notification_count > 0),
    {
        notification_count > 0
    }
}

} // verus!
