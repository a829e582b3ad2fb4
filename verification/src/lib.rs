//! Verified core of a Matrix chat client: password rules, room categories and
//! their actions, the invitee search list, message composition and the small
//! decisions that the widgets take.

pub mod context_menu_bin;
pub mod editable_avatar;
mod gettext_calls;
pub mod i18n;
pub mod invitee_list;
pub mod item_row;
pub mod laws;
pub mod message_actions;
pub mod message_file;
pub mod public_room_row;
pub mod room;
pub mod room_row;
pub mod text;
pub mod timeline_day_divider;
pub mod unicode;
pub mod utils;
pub mod window;
