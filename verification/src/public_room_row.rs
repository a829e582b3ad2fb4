//! What a row of the public room directory shows.

use vstd::prelude::*;
use crate::text::push_char;

verus! {

/// The digits of a number in base 10, most significant first.
pub open spec fn decimal(n: nat) -> Seq<char>
    decreases n,
{
    let digits = seq!['0', '1', '2', '3', '4', '5', '6', '7', '8', '9'];
    if n < 10 {
        seq![digits[n as int]]
    } else {
        decimal(n / 10).push(digits[(n % 10) as int])
    }
}

/// The digit character of a number below 10.
fn digit_char(d: u64) -> (c: char)
    requires
        d < 10,
    ensures
        c == seq!['0', '1', '2', '3', '4', '5', '6', '7', '8', '9'][d as int],
{
    match d {
        0 => '0',
        1 => '1',
        2 => '2',
        3 => '3',
        4 => '4',
        5 => '5',
        6 => '6',
        7 => '7',
        8 => '8',
        _ => '9',
    }
}

/// Append the digits of `n` in base 10 to `s`.
fn push_decimal(s: &mut String, n: u64)
    ensures
        final(s)@ == old(s)@ + decimal(n as nat),
    decreases n,
{
    if n >= 10 {
        push_decimal(s, n / 10);
    }
    push_char(s, digit_char(n % 10));
    proof {
        if n >= 10 {
            assert(decimal(n as nat) == decimal((n / 10) as nat).push(
                seq!['0', '1', '2', '3', '4', '5', '6', '7', '8', '9'][(n % 10) as int],
            ));
        } else {
            assert(n % 10 == n);
        }
    }
}

/// The number written in base 10.
fn u64_to_string(n: u64) -> (s: String)
    ensures
        s@ == decimal(n as nat),
{
    let mut s = String::new();
    push_decimal(&mut s, n);
    s
}

/// What the directory tells of a public room.
#[derive(Debug, Clone)]
pub struct PublicRoomInfo {
    pub name: Option<String>,
    pub topic: Option<String>,
    pub canonical_alias: Option<String>,
    pub num_joined_members: u64,
}

/// What the row shows of a public room.
#[derive(Debug, Clone)]
pub struct PublicRoomDisplay {
    /// The name, or a text that tells there is none.
    pub display_name: String,
    /// The topic, shown only when there is one.
    pub description: Option<String>,
    /// The canonical alias, shown only when there is one.
    pub alias: Option<String>,
    /// The number of joined members.
    pub members_count: String,
}

/// The button that joins or views a public room.
#[derive(Debug, Clone, Copy)]
pub struct JoinButton {
    /// The message id of the label.
    pub label_msgid: &'static str,
    /// Whether the button shows that joining is under way.
    pub loading: bool,
}

/// An entry of the public room directory: its id, which tells the entries
/// apart (entries with the same id are the same entry), and what the
/// directory told of the room, if it answered already.
#[derive(Debug, Clone)]
pub struct PublicRoom {
    pub entry_id: u64,
    pub info: Option<PublicRoomInfo>,
}

/// What setting the public room of a row asks of it.
#[derive(Debug, Clone)]
pub enum PublicRoomUpdate {
    /// The row shows that entry already: nothing changes.
    Unchanged,
    /// The row shows no entry any more.
    Cleared,
    /// The row shows another entry, with this content.
    Show(PublicRoomContent),
}

/// A row of the public room directory, with the entry it shows.
pub struct PublicRoomRow {
    public_room: Option<u64>,
}

impl View for PublicRoomRow {
    type V = Option<u64>;

    /// The id of the entry the row shows.
    closed spec fn view(&self) -> Option<u64> {
        self.public_room
    }
}

/// The id of an entry, if there is one.
pub open spec fn entry_id_of(public_room: Option<PublicRoom>) -> Option<u64> {
    match public_room {
        Some(r) => Some(r.entry_id),
        None => None,
    }
}

/// Whether `content` is what the row shows of a public room of which the
/// directory told `info`, or told nothing yet.
pub open spec fn shows_content(info: Option<PublicRoomInfo>, content: PublicRoomContent) -> bool {
    match info {
        Some(i) => content matches PublicRoomContent::Loaded(d) && shows_public_room(i, d),
        None => content is Loading,
    }
}

/// What the row shows of a public room: a spinner while the directory has
/// not answered, else what it tells of the room.
#[derive(Debug, Clone)]
pub enum PublicRoomContent {
    Loading,
    Loaded(PublicRoomDisplay),
}

/// What the row shows of a public room of which the directory told `info`.
pub open spec fn shows_public_room(info: PublicRoomInfo, display: PublicRoomDisplay) -> bool {
    &&& match info.name {
        Some(n) => display.display_name == n,
        None => display.display_name@ == "Room without name"@,
    }
    &&& display.description == info.topic
    &&& display.alias == info.canonical_alias
    &&& display.members_count@ == decimal(info.num_joined_members as nat)
}

impl PublicRoomRow {
    /// A row that shows no entry.
    pub fn new() -> (row: Self)
        ensures
            row@ is None,
    {
        PublicRoomRow { public_room: None }
    }

    /// The id of the entry the row shows.
    pub fn public_room(&self) -> (entry_id: Option<u64>)
        ensures
            entry_id == self@,
    {
        self.public_room
    }

    /// Show another entry of the directory, or none. Nothing changes when
    /// the row shows that entry already; else the row keeps the entry and
    /// shows what the directory told of it.
    pub fn set_public_room(&mut self, public_room: Option<PublicRoom>) -> (update: PublicRoomUpdate)
        ensures
            entry_id_of(public_room) == old(self)@ ==> update is Unchanged && final(self)@ == old(
                self,
            )@,
            entry_id_of(public_room) != old(self)@ ==> final(self)@ == entry_id_of(public_room)
                && match public_room {
                Some(r) => update matches PublicRoomUpdate::Show(c) && shows_content(r.info, c),
                None => update is Cleared,
            },
    {
        let same = match (&public_room, self.public_room) {
            (Some(r), Some(id)) => r.entry_id == id,
            (None, None) => true,
            _ => false,
        };
        if same {
            return PublicRoomUpdate::Unchanged;
        }
        match public_room {
            Some(r) => {
                self.public_room = Some(r.entry_id);
                PublicRoomUpdate::Show(Self::public_room_content(r.info))
            },
            None => {
                self.public_room = None;
                PublicRoomUpdate::Cleared
            },
        }
    }

    /// What the row shows of a public room, from what the directory told of
    /// it, or a spinner while it has told nothing yet.
    pub fn public_room_content(info: Option<PublicRoomInfo>) -> (content: PublicRoomContent)
        ensures
            shows_content(info, content),
    {
        match info {
            Some(info) => {
                let display_name = match info.name {
                    Some(n) => n,
                    None => "Room without name".to_owned(),
                };
                PublicRoomContent::Loaded(
                    PublicRoomDisplay {
                        display_name,
                        description: info.topic,
                        alias: info.canonical_alias,
                        members_count: u64_to_string(info.num_joined_members),
                    },
                )
            },
            None => PublicRoomContent::Loading,
        }
    }

    /// The button of the row: it views a room that the user joined already,
    /// else it joins it; it is loading while a request is pending.
    pub fn update_button(has_room: bool, is_pending: bool) -> (button: JoinButton)
        ensures
            has_room ==> button.label_msgid@ == "View"@,
            !has_room ==> button.label_msgid@ == "Join"@,
            button.loading == is_pending,
    {
        let label_msgid = if has_room {
            "View"
        } else {
            "Join"
        };
        JoinButton { label_msgid, loading: is_pending }
    }
}

} // verus!
