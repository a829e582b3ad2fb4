//! The row of an item of the room history: which child widget it shows and
//! which context menu it opens.

use vstd::prelude::*;

verus! {

/// A timeline item, with what the row reads of it.
#[derive(Debug, Clone, Copy, PartialEq, Eq, Structural)]
pub enum TimelineItemKind {
    /// An event; whether it is a state event, and whether it has content.
    Event { is_state: bool, has_content: bool },
    DayDivider,
    Spinner,
    NewMessagesDivider,
    Other,
}

/// The child widget of a row.
#[derive(Debug, Clone, Copy, PartialEq, Eq, Structural)]
pub enum RowChild {
    Empty,
    StateRow,
    MessageRow,
    DividerRow,
    Spinner,
    Other,
}

/// What happens to the child widget of a row.
#[derive(Debug, Clone, Copy, PartialEq, Eq, Structural)]
pub enum ChildUpdate {
    /// The child is left as it is.
    Untouched,
    /// The current child, of this kind, is updated.
    Reuse(RowChild),
    /// A new child of this kind replaces the current one.
    Create(RowChild),
}

/// The label of a divider row.
#[derive(Debug, Clone, Copy, PartialEq, Eq, Structural)]
pub enum DividerLabel {
    /// Bound to the formatted date of the day divider, and kept in step
    /// with it.
    FormattedDate,
    /// The translation of "New Messages".
    NewMessages,
}

impl DividerLabel {
    /// The message id of the label, when it is a fixed text.
    pub fn msgid(self) -> (msgid: Option<&'static str>)
        ensures
            self is FormattedDate ==> msgid is None,
            self is NewMessages ==> (msgid matches Some(m) && m@ == "New Messages"@),
    {
        match self {
            DividerLabel::FormattedDate => None,
            DividerLabel::NewMessages => Some("New Messages"),
        }
    }
}

/// What setting an item asks of a row.
#[derive(Debug, Clone, Copy, PartialEq, Eq, Structural)]
pub struct ItemRowUpdate {
    /// Whether the popover and the event actions of the row are removed.
    pub clear_menu: bool,
    /// Whether the row takes the actions of the event it shows.
    pub event_actions: bool,
    /// What happens to the child widget.
    pub child: ChildUpdate,
    /// The label given to a divider row.
    pub label: Option<DividerLabel>,
}

/// The context menu of a row.
#[derive(Debug, Clone, Copy, PartialEq, Eq, Structural)]
pub enum ItemMenu {
    /// No menu.
    NoMenu,
    /// The menu of a message, with the reaction chooser.
    MessageMenu,
    /// The menu of a state event.
    StateMenu,
}

/// The child that shows the given kind: it is reused when the current child
/// is of that kind.
pub open spec fn reuse_or_create(current: RowChild, wanted: RowChild) -> ChildUpdate {
    if current == wanted {
        ChildUpdate::Reuse(wanted)
    } else {
        ChildUpdate::Create(wanted)
    }
}

/// What setting an item asks of a row whose child is `current`.
pub open spec fn spec_set_item(item: TimelineItemKind, current: RowChild) -> ItemRowUpdate {
    match item {
        TimelineItemKind::Event { is_state, .. } => ItemRowUpdate {
            clear_menu: false,
            event_actions: true,
            child: reuse_or_create(
                current,
                if is_state {
                    RowChild::StateRow
                } else {
                    RowChild::MessageRow
                },
            ),
            label: None,
        },
        TimelineItemKind::DayDivider => ItemRowUpdate {
            clear_menu: true,
            event_actions: false,
            child: reuse_or_create(current, RowChild::DividerRow),
            label: Some(DividerLabel::FormattedDate),
        },
        TimelineItemKind::Spinner => if current == RowChild::Spinner {
            untouched()
        } else {
            ItemRowUpdate {
                clear_menu: true,
                event_actions: false,
                child: ChildUpdate::Create(RowChild::Spinner),
                label: None,
            }
        },
        TimelineItemKind::NewMessagesDivider => ItemRowUpdate {
            clear_menu: true,
            event_actions: false,
            child: reuse_or_create(current, RowChild::DividerRow),
            label: Some(DividerLabel::NewMessages),
        },
        TimelineItemKind::Other => untouched(),
    }
}

/// An update that changes nothing.
pub open spec fn untouched() -> ItemRowUpdate {
    ItemRowUpdate {
        clear_menu: false,
        event_actions: false,
        child: ChildUpdate::Untouched,
        label: None,
    }
}

/// The row of an item of the room history, with the item it shows.
pub struct ItemRow {
    item: Option<TimelineItemKind>,
}

impl View for ItemRow {
    type V = Option<TimelineItemKind>;

    closed spec fn view(&self) -> Option<TimelineItemKind> {
        self.item
    }
}

impl ItemRow {
    /// A row that shows no item.
    pub fn new() -> (row: Self)
        ensures
            row@ is None,
    {
        ItemRow { item: None }
    }

    /// The item of the row.
    pub fn item(&self) -> (item: Option<TimelineItemKind>)
        ensures
            item == self@,
    {
        self.item
    }

    fn reuse_or_create(current: RowChild, wanted: RowChild) -> (update: ChildUpdate)
        ensures
            update == reuse_or_create(current, wanted),
    {
        if current == wanted {
            ChildUpdate::Reuse(wanted)
        } else {
            ChildUpdate::Create(wanted)
        }
    }

    /// Set the item of a row whose child is `current`, and say what that
    /// asks of the row: an event is shown by a state row or a message row
    /// with the event's actions; a day divider by a divider row bound to its
    /// formatted date; the new messages divider by a divider row labelled
    /// "New Messages"; a spinner by a spinner; a child of the right kind is
    /// reused. Without an item nothing changes on the row.
    pub fn set_item(&mut self, item: Option<TimelineItemKind>, current: RowChild) -> (update: ItemRowUpdate)
        ensures
            final(self)@ == item,
            match item {
                Some(i) => update == spec_set_item(i, current),
                None => update == untouched(),
            },
    {
        self.item = item;
        let none = ItemRowUpdate {
            clear_menu: false,
            event_actions: false,
            child: ChildUpdate::Untouched,
            label: None,
        };
        match item {
            None => none,
            Some(TimelineItemKind::Event { is_state, .. }) => ItemRowUpdate {
                clear_menu: false,
                event_actions: true,
                child: Self::reuse_or_create(
                    current,
                    if is_state {
                        RowChild::StateRow
                    } else {
                        RowChild::MessageRow
                    },
                ),
                label: None,
            },
            Some(TimelineItemKind::DayDivider) => ItemRowUpdate {
                clear_menu: true,
                event_actions: false,
                child: Self::reuse_or_create(current, RowChild::DividerRow),
                label: Some(DividerLabel::FormattedDate),
            },
            Some(TimelineItemKind::Spinner) => if current == RowChild::Spinner {
                none
            } else {
                ItemRowUpdate {
                    clear_menu: true,
                    event_actions: false,
                    child: ChildUpdate::Create(RowChild::Spinner),
                    label: None,
                }
            },
            Some(TimelineItemKind::NewMessagesDivider) => ItemRowUpdate {
                clear_menu: true,
                event_actions: false,
                child: Self::reuse_or_create(current, RowChild::DividerRow),
                label: Some(DividerLabel::NewMessages),
            },
            Some(TimelineItemKind::Other) => none,
        }
    }

    /// The context menu opened for an item: the message menu for an event
    /// with content, the state menu for another event, none otherwise.
    pub fn menu_opened(item: TimelineItemKind) -> (menu: ItemMenu)
        ensures
            menu == match item {
                TimelineItemKind::Event { has_content, .. } => if has_content {
                    ItemMenu::MessageMenu
                } else {
                    ItemMenu::StateMenu
                },
                _ => ItemMenu::NoMenu,
            },
    {
        match item {
            TimelineItemKind::Event { has_content, .. } => if has_content {
                ItemMenu::MessageMenu
            } else {
                ItemMenu::StateMenu
            },
            _ => ItemMenu::NoMenu,
        }
    }
}

} // verus!
