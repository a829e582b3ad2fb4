//! The state of the widget that shows a file message.

use vstd::prelude::*;

verus! {

/// The state of a file message widget: the filename and whether it is
/// compact.
pub struct MessageFile {
    filename: Option<String>,
    compact: bool,
}

/// The abstract state of a file message widget.
pub struct MessageFileModel {
    pub filename: Option<Seq<char>>,
    pub compact: bool,
}

impl View for MessageFile {
    type V = MessageFileModel;

    closed spec fn view(&self) -> MessageFileModel {
        MessageFileModel {
            filename: match self.filename {
                Some(f) => Some(f@),
                None => None,
            },
            compact: self.compact,
        }
    }
}

/// The filename kept for a given one: an empty name is no name.
pub open spec fn kept_filename(filename: Option<Seq<char>>) -> Option<Seq<char>> {
    match filename {
        Some(f) => if f.len() > 0 {
            Some(f)
        } else {
            None
        },
        None => None,
    }
}

impl MessageFile {
    /// A widget with no filename, not compact.
    pub fn new() -> (file: Self)
        ensures
            file@.filename is None,
            !file@.compact,
    {
        MessageFile { filename: None, compact: false }
    }

    /// Set the filename; an empty one is no filename. Returns whether it
    /// changed.
    pub fn set_filename(&mut self, filename: Option<String>) -> (changed: bool)
        ensures
            ({
                let new_name = kept_filename(match filename {
                    Some(f) => Some(f@),
                    None => None,
                });
                &&& changed == (new_name != old(self)@.filename)
                &&& final(self)@ == (MessageFileModel { filename: new_name, ..old(self)@ })
            }),
    {
        let name = match filename {
            Some(f) => if f.as_str().is_empty() {
                None
            } else {
                Some(f)
            },
            None => None,
        };
        let same = match (&name, &self.filename) {
            (Some(a), Some(b)) => a.eq(b),
            (None, None) => true,
            _ => false,
        };
        if same {
            return false;
        }
        self.filename = name;
        true
    }

    /// The filename.
    pub fn filename(&self) -> (filename: Option<String>)
        ensures
            match filename {
                Some(f) => self@.filename == Some(f@),
                None => self@.filename is None,
            },
    {
        match &self.filename {
            Some(f) => Some(f.clone()),
            None => None,
        }
    }

    /// Set whether the file is displayed in a compact format. Returns whether
    /// it changed.
    pub fn set_compact(&mut self, compact: bool) -> (changed: bool)
        ensures
            changed == (compact != old(self)@.compact),
            final(self)@ == (MessageFileModel { compact, ..old(self)@ }),
    {
        if self.compact == compact {
            return false;
        }
        self.compact = compact;
        true
    }

    /// Whether the file is displayed in a compact format.
    pub fn compact(&self) -> (compact: bool)
        ensures
            compact == self@.compact,
    {
        self.compact
    }
}

} // verus!
