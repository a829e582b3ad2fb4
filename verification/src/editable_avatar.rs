//! The state of the avatar that the user can edit or remove.

use vstd::prelude::*;
use crate::text::same_text;

verus! {

/// The state of an action button.
#[derive(Debug, Clone, Copy, PartialEq, Eq, Structural)]
pub enum ActionState {
    Default,
    Confirm,
    Retry,
    Loading,
    Success,
    Warning,
    Error,
}

impl Default for ActionState {
    fn default() -> (s: Self)
        ensures
            s == ActionState::Default,
    {
        ActionState::Default
    }
}

/// The state of an editable avatar.
#[derive(Debug, Clone)]
pub struct EditableAvatar {
    /// The avatar shown, by the URL of its image.
    pub avatar: Option<String>,
    /// The file of the temporary image shown while a new avatar is sent.
    pub temp_image: Option<String>,
    /// Whether this avatar is changeable.
    pub editable: bool,
    /// The state of the avatar edit.
    pub edit_state: ActionState,
    /// Whether the edit button is sensitive.
    pub edit_sensitive: bool,
    /// Whether this avatar is removable.
    pub removable: bool,
    /// The state of the avatar removal.
    pub remove_state: ActionState,
    /// Whether the remove button is sensitive.
    pub remove_sensitive: bool,
}

/// The text of an optional string.
pub open spec fn opt_text(s: Option<String>) -> Option<Seq<char>> {
    match s {
        Some(t) => Some(t@),
        None => None,
    }
}

/// What choosing a new avatar ended with.
#[derive(Debug, Clone, Copy, PartialEq, Eq, Structural)]
pub enum AvatarChoice {
    /// The dialog was cancelled: nothing happens.
    Cancelled,
    /// An image was chosen: the avatar is to be edited with it.
    EditAvatar,
    /// No file was chosen.
    NoFile,
    /// The type of the chosen file could not be determined.
    UnknownType,
    /// The chosen file is not an image.
    NotAnImage,
}

impl EditableAvatar {
    /// An avatar that is neither editable nor removable, with both buttons
    /// sensitive and in their default state, and with no avatar nor
    /// temporary image.
    pub fn new() -> (a: Self)
        ensures
            !a.editable && a.edit_state == ActionState::Default && a.edit_sensitive && !a.removable
                && a.remove_state == ActionState::Default && a.remove_sensitive,
            a.avatar is None,
            a.temp_image is None,
    {
        EditableAvatar {
            avatar: None,
            temp_image: None,
            editable: false,
            edit_state: ActionState::Default,
            edit_sensitive: true,
            removable: false,
            remove_state: ActionState::Default,
            remove_sensitive: true,
        }
    }

    /// Set the avatar shown. Returns whether it changed.
    pub fn set_avatar(&mut self, avatar: Option<String>) -> (changed: bool)
        ensures
            changed == (opt_text(avatar) != opt_text(old(self).avatar)),
            opt_text(final(self).avatar) == opt_text(avatar),
            final(self).temp_image == old(self).temp_image,
            final(self).editable == old(self).editable,
            final(self).edit_state == old(self).edit_state,
            final(self).edit_sensitive == old(self).edit_sensitive,
            final(self).removable == old(self).removable,
            final(self).remove_state == old(self).remove_state,
            final(self).remove_sensitive == old(self).remove_sensitive,
    {
        let same = match (&avatar, &self.avatar) {
            (Some(a), Some(b)) => same_text(a, b),
            (None, None) => true,
            _ => false,
        };
        if same {
            return false;
        }
        self.avatar = avatar;
        true
    }

    /// Show the image of the given file as the temporary image, when it
    /// could be loaded as an image; otherwise there is no temporary image.
    pub fn set_temp_image_from_file(&mut self, file: Option<String>, loaded_as_image: bool)
        ensures
            opt_text(final(self).temp_image) == (if loaded_as_image {
                opt_text(file)
            } else {
                None
            }),
            final(self).avatar == old(self).avatar,
            final(self).editable == old(self).editable,
            final(self).edit_state == old(self).edit_state,
            final(self).edit_sensitive == old(self).edit_sensitive,
            final(self).removable == old(self).removable,
            final(self).remove_state == old(self).remove_state,
            final(self).remove_sensitive == old(self).remove_sensitive,
    {
        self.temp_image = if loaded_as_image {
            file
        } else {
            None
        };
    }

    /// Set whether the avatar is editable. Returns whether it changed.
    pub fn set_editable(&mut self, editable: bool) -> (changed: bool)
        ensures
            changed == (editable != old(self).editable),
            *final(self) == (EditableAvatar { editable, ..*old(self) }),
    {
        if self.editable == editable {
            return false;
        }
        self.editable = editable;
        true
    }

    /// Set the state of the avatar edit. Returns whether it changed.
    pub fn set_edit_state(&mut self, state: ActionState) -> (changed: bool)
        ensures
            changed == (state != old(self).edit_state),
            *final(self) == (EditableAvatar { edit_state: state, ..*old(self) }),
    {
        if self.edit_state == state {
            return false;
        }
        self.edit_state = state;
        true
    }

    /// Set whether the edit button is sensitive. Returns whether it changed.
    pub fn set_edit_sensitive(&mut self, sensitive: bool) -> (changed: bool)
        ensures
            changed == (sensitive != old(self).edit_sensitive),
            *final(self) == (EditableAvatar { edit_sensitive: sensitive, ..*old(self) }),
    {
        if self.edit_sensitive == sensitive {
            return false;
        }
        self.edit_sensitive = sensitive;
        true
    }

    /// Set whether the avatar is removable. Returns whether it changed.
    pub fn set_removable(&mut self, removable: bool) -> (changed: bool)
        ensures
            changed == (removable != old(self).removable),
            *final(self) == (EditableAvatar { removable, ..*old(self) }),
    {
        if self.removable == removable {
            return false;
        }
        self.removable = removable;
        true
    }

    /// Set the state of the avatar removal. Returns whether it changed.
    pub fn set_remove_state(&mut self, state: ActionState) -> (changed: bool)
        ensures
            changed == (state != old(self).remove_state),
            *final(self) == (EditableAvatar { remove_state: state, ..*old(self) }),
    {
        if self.remove_state == state {
            return false;
        }
        self.remove_state = state;
        true
    }

    /// Set whether the remove button is sensitive. Returns whether it
    /// changed.
    pub fn set_remove_sensitive(&mut self, sensitive: bool) -> (changed: bool)
        ensures
            changed == (sensitive != old(self).remove_sensitive),
            *final(self) == (EditableAvatar { remove_sensitive: sensitive, ..*old(self) }),
    {
        if self.remove_sensitive == sensitive {
            return false;
        }
        self.remove_sensitive = sensitive;
        true
    }

    /// The name of the child of the stack to show: the temporary image, or
    /// the avatar.
    pub fn show_temp_image(show_temp: bool) -> (child: &'static str)
        ensures
            show_temp ==> child@ == "temp"@,
            !show_temp ==> child@ == "default"@,
    {
        if show_temp {
            "temp"
        } else {
            "default"
        }
    }

    /// What choosing a new avatar ends with: whether the dialog was
    /// accepted, whether a file was chosen, and whether the file is an image,
    /// when its type could be determined.
    pub fn choose_avatar(accepted: bool, file_chosen: bool, is_image: Option<bool>) -> (choice: AvatarChoice)
        ensures
            choice == (if !accepted {
                AvatarChoice::Cancelled
            } else if !file_chosen {
                AvatarChoice::NoFile
            } else {
                match is_image {
                    Some(true) => AvatarChoice::EditAvatar,
                    Some(false) => AvatarChoice::NotAnImage,
                    None => AvatarChoice::UnknownType,
                }
            }),
    {
        if !accepted {
            AvatarChoice::Cancelled
        } else if !file_chosen {
            AvatarChoice::NoFile
        } else {
            match is_image {
                Some(true) => AvatarChoice::EditAvatar,
                Some(false) => AvatarChoice::NotAnImage,
                None => AvatarChoice::UnknownType,
            }
        }
    }

    /// The message id of the toast that tells what went wrong, if anything did.
    pub fn choice_error_msgid(choice: AvatarChoice) -> (msgid: Option<&'static str>)
        ensures
            choice == AvatarChoice::NoFile ==> (msgid matches Some(m) && m@
                == "No file was chosen"@),
            choice == AvatarChoice::UnknownType ==> (msgid matches Some(m) && m@
                == "Could not determine the type of the chosen file"@),
            choice == AvatarChoice::NotAnImage ==> (msgid matches Some(m) && m@
                == "The chosen file is not an image"@),
            choice == AvatarChoice::Cancelled || choice == AvatarChoice::EditAvatar ==> msgid is None,
    {
        match choice {
            AvatarChoice::NoFile => Some("No file was chosen"),
            AvatarChoice::UnknownType => Some("Could not determine the type of the chosen file"),
            AvatarChoice::NotAnImage => Some("The chosen file is not an image"),
            _ => None,
        }
    }
}

} // verus!
