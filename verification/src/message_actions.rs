//! The decisions behind the actions on a message of the room history: what a
//! reply quotes, which source is shown, and from where older messages load.

use vstd::prelude::*;
use crate::i18n::{translate, translation_of, Translations};

verus! {

/// From where the older messages of a room are requested.
#[derive(Debug)]
pub enum HistoryRequest<M> {
    /// From the given pagination token.
    FromToken(String),
    /// From the given message, the oldest one known.
    FromMessage(M),
}

/// From where the older messages of a room are requested: from the room's
/// previous batch token, else from its oldest known message, else from the
/// token of the last sync; with none of them, nothing is requested.
pub fn request_more_messages<M>(
    prev_batch: Option<String>,
    first_message: Option<M>,
    since: Option<String>,
) -> (request: Option<HistoryRequest<M>>)
    ensures
        match prev_batch {
            Some(t) => request matches Some(HistoryRequest::FromToken(r)) && r == t,
            None => match first_message {
                Some(m) => request matches Some(HistoryRequest::FromMessage(r)) && r == m,
                None => match since {
                    Some(t) => request matches Some(HistoryRequest::FromToken(r)) && r == t,
                    None => request is None,
                },
            },
        },
{
    if let Some(token) = prev_batch {
        Some(HistoryRequest::FromToken(token))
    } else if let Some(message) = first_message {
        Some(HistoryRequest::FromMessage(message))
    } else if let Some(token) = since {
        Some(HistoryRequest::FromToken(token))
    } else {
        None
    }
}

/// The text shown as the source of a message: its source, or the translation
/// of "This message has no source." when it has none.
pub fn message_source_text(translations: &Translations, source: Option<String>) -> (text: String)
    ensures
        source matches Some(s) ==> text == s,
        source is None ==> translation_of(translations@, "This message has no source."@, text@),
{
    match source {
        Some(s) => s,
        None => {
            proof {
                reveal_strlit("This message has no source.");
            }
            translate(translations, "This message has no source.")
        },
    }
}

/// An action on a message of the room history.
#[derive(Debug, Clone, Copy, PartialEq, Eq, Structural)]
pub enum MessageAction {
    Reply,
    OpenWith,
    SaveAs,
    CopyImage,
    CopyText,
    Delete,
    ShowSource,
    RequestOlderMessages,
}

impl MessageAction {
    /// The name under which the action is added to the room history's
    /// action group; each takes the id of the message, or of the room for
    /// older messages, as a string parameter.
    pub fn name(self) -> (name: &'static str)
        ensures
            self == MessageAction::Reply ==> name@ == "reply"@,
            self == MessageAction::OpenWith ==> name@ == "open_with"@,
            self == MessageAction::SaveAs ==> name@ == "save_as"@,
            self == MessageAction::CopyImage ==> name@ == "copy_image"@,
            self == MessageAction::CopyText ==> name@ == "copy_text"@,
            self == MessageAction::Delete ==> name@ == "delete"@,
            self == MessageAction::ShowSource ==> name@ == "show_source"@,
            self == MessageAction::RequestOlderMessages ==> name@ == "request_older_messages"@,
    {
        match self {
            MessageAction::Reply => "reply",
            MessageAction::OpenWith => "open_with",
            MessageAction::SaveAs => "save_as",
            MessageAction::CopyImage => "copy_image",
            MessageAction::CopyText => "copy_text",
            MessageAction::Delete => "delete",
            MessageAction::ShowSource => "show_source",
            MessageAction::RequestOlderMessages => "request_older_messages",
        }
    }
}

/// Whether the action first goes back from the media viewer: replying to and
/// deleting a message do, when the media viewer is the current view.
pub fn returns_from_media_viewer(action: MessageAction, media_viewer_open: bool) -> (back: bool)
    ensures
        back == (media_viewer_open && (action == MessageAction::Reply || action
            == MessageAction::Delete)),
{
    media_viewer_open && match action {
        MessageAction::Reply | MessageAction::Delete => true,
        _ => false,
    }
}

/// What saving a message's file needs: the URL of the media, and the body of
/// the message as the name to save it under. Without a URL there is nothing
/// to save.
pub fn save_as_target(url: Option<String>, body: String) -> (target: Option<(String, String)>)
    ensures
        match url {
            Some(u) => target == Some((u, body)),
            None => target is None,
        },
{
    match url {
        Some(u) => Some((u, body)),
        None => None,
    }
}

} // verus!
