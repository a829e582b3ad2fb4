//! Helpers shared by the whole client: password rules, integer conversion,
//! media identifiers, default file names and pending event identifiers.

use vstd::prelude::*;
use crate::i18n::{translate, translation_of, Translations};
use crate::text::same_text;
use crate::unicode::{
    char_is_lowercase, char_is_numeric, char_is_uppercase, is_ascii_digit, is_ascii_lower,
    is_ascii_upper, is_lowercase, is_numeric, is_uppercase,
};

verus! {

/// How a password character counts in the password rules. Each character
/// counts in exactly one class, tried in this order: a number, else a
/// lowercase letter, else an uppercase letter, else a symbol.
#[derive(Clone, Copy, Debug, PartialEq, Eq, Structural)]
pub enum CharClass {
    Number,
    Lowercase,
    Uppercase,
    Symbol,
}

/// The class of a password character.
pub open spec fn char_class(c: char) -> CharClass {
    if char_is_numeric(c) {
        CharClass::Number
    } else if char_is_lowercase(c) {
        CharClass::Lowercase
    } else if char_is_uppercase(c) {
        CharClass::Uppercase
    } else {
        CharClass::Symbol
    }
}

/// Whether some character of `s` is of class `class`.
pub open spec fn has_class(s: Seq<char>, class: CharClass) -> bool {
    exists|i: int| 0 <= i < s.len() && #[trigger] char_class(s[i]) == class
}

/// The result of a password validation.
#[derive(Debug, Clone, Copy, PartialEq, Eq, Structural)]
pub struct PasswordValidity {
    /// Whether the password includes at least one lowercase letter.
    pub has_lowercase: bool,
    /// Whether the password includes at least one uppercase letter.
    pub has_uppercase: bool,
    /// Whether the password includes at least one number.
    pub has_number: bool,
    /// Whether the password includes at least one symbol.
    pub has_symbol: bool,
    /// Whether the password is at least 8 characters long.
    pub has_length: bool,
    /// The percentage of checks passed for the password, between 0 and 100.
    ///
    /// If progress is 100, the password is valid.
    pub progress: u32,
}

/// The number of checks among five that a validity records as passed.
pub open spec fn passed_checks(v: PasswordValidity) -> nat {
    (if v.has_number { 1nat } else { 0nat }) + (if v.has_lowercase { 1nat } else { 0nat }) + (
    if v.has_uppercase { 1nat } else { 0nat }) + (if v.has_symbol { 1nat } else { 0nat }) + (
    if v.has_length { 1nat } else { 0nat })
}

/// Whether every check passed.
pub open spec fn all_checks_pass(v: PasswordValidity) -> bool {
    v.has_number && v.has_lowercase && v.has_uppercase && v.has_symbol && v.has_length
}

/// What `validate_password` returns for a password with the given characters.
pub open spec fn password_validity(chars: Seq<char>) -> PasswordValidity {
    let v = PasswordValidity {
        has_lowercase: has_class(chars, CharClass::Lowercase),
        has_uppercase: has_class(chars, CharClass::Uppercase),
        has_number: has_class(chars, CharClass::Number),
        has_symbol: has_class(chars, CharClass::Symbol),
        has_length: chars.len() >= 8,
        progress: 0,
    };
    PasswordValidity { progress: (passed_checks(v) * 20) as u32, ..v }
}

impl PasswordValidity {
    /// A validity where no check passed.
    pub fn new() -> (v: Self)
        ensures
            !v.has_lowercase && !v.has_uppercase && !v.has_number && !v.has_symbol
                && !v.has_length && v.progress == 0,
    {
        PasswordValidity {
            has_lowercase: false,
            has_uppercase: false,
            has_number: false,
            has_symbol: false,
            has_length: false,
            progress: 0,
        }
    }
}

impl Default for PasswordValidity {
    fn default() -> (v: Self)
        ensures
            !v.has_lowercase && !v.has_uppercase && !v.has_number && !v.has_symbol
                && !v.has_length && v.progress == 0,
    {
        Self::new()
    }
}

/// Validate a password according to the Matrix specification.
///
/// A password should include a lower-case letter, an upper-case letter, a
/// number and a symbol and be at a minimum 8 characters in length.
pub fn validate_password(password: &str) -> (validity: PasswordValidity)
    ensures
        validity == password_validity(password@),
{
    let mut validity = PasswordValidity::new();
    let ghost chars = password@;

    for c in it: password.chars()
        invariant
            it.seq() == chars,
            validity.has_number == has_class(chars.take(it.index() as int), CharClass::Number),
            validity.has_lowercase == has_class(
                chars.take(it.index() as int),
                CharClass::Lowercase,
            ),
            validity.has_uppercase == has_class(
                chars.take(it.index() as int),
                CharClass::Uppercase,
            ),
            validity.has_symbol == has_class(chars.take(it.index() as int), CharClass::Symbol),
            !validity.has_length,
            validity.progress == 0,
    {
        let ghost i = it.index() as int;
        let ghost before = chars.take(i);
        let ghost after = chars.take(i + 1);
        assert(after == before.push(c));
        assert(after[i] == c);
        assert forall|class: CharClass| has_class(after, class) <==> (has_class(before, class)
            || char_class(c) == class) by {
            if has_class(after, class) {
                let j = choose|j: int| 0 <= j < after.len() && #[trigger] char_class(after[j]) == class;
                if j < i {
                    assert(before[j] == after[j]);
                }
            }
            if has_class(before, class) {
                let j = choose|j: int| 0 <= j < before.len() && #[trigger] char_class(before[j]) == class;
                assert(after[j] == before[j]);
            }
        }
        if is_numeric(c) {
            validity.has_number = true;
        } else if is_lowercase(c) {
            validity.has_lowercase = true;
        } else if is_uppercase(c) {
            validity.has_uppercase = true;
        } else {
            validity.has_symbol = true;
        }
    }
    assert(chars.take(chars.len() as int) == chars);

    validity.has_length = password.unicode_len() >= 8;

    let mut passed: u32 = 0;
    if validity.has_number {
        passed += 1;
    }
    if validity.has_lowercase {
        passed += 1;
    }
    if validity.has_uppercase {
        passed += 1;
    }
    if validity.has_symbol {
        passed += 1;
    }
    if validity.has_length {
        passed += 1;
    }
    assert(passed as nat == passed_checks(validity));
    assert(passed * 100 / 5 == passed * 20) by (nonlinear_arith)
        requires
            passed <= 5,
    ;
    validity.progress = passed * 100 / 5;

    validity
}

/// Converts an unsigned integer of the protocol to `i32`.
///
/// Returns `-1` if the conversion didn't work: there is no integer, or it does
/// not fit in an `i32`.
pub fn uint_to_i32(u: Option<u64>) -> (i: i32)
    ensures
        i == match u {
            Some(v) => if v <= i32::MAX {
                v as i32
            } else {
                -1i32
            },
            None => -1i32,
        },
{
    match u {
        Some(v) => if v <= 2147483647 {
            v as i32
        } else {
            -1
        },
        None => -1,
    }
}

/// The name of the source view style scheme for the current color scheme.
pub fn style_scheme_name(is_dark: bool) -> (name: &'static str)
    ensures
        is_dark ==> name@ == "Adwaita-dark"@,
        !is_dark ==> name@ == "Adwaita"@,
{
    if is_dark {
        "Adwaita-dark"
    } else {
        "Adwaita"
    }
}

/// Where the content of a media is found: a plain URI, or the URI of an
/// encrypted file.
#[derive(Debug, Clone)]
pub enum MediaSource {
    Plain(String),
    Encrypted(String),
}

/// The URI of a media source.
pub open spec fn media_uri(source: MediaSource) -> Seq<char> {
    match source {
        MediaSource::Plain(uri) => uri@,
        MediaSource::Encrypted(uri) => uri@,
    }
}

/// The server name and media id of an MXC URI, as `MxcUri::parts` gives them
/// when the URI is valid.
pub uninterp spec fn mxc_uri_parts(uri: Seq<char>) -> Option<(Seq<char>, Seq<char>)>;

/// The scheme of MXC URIs.
pub open spec fn mxc_scheme() -> Seq<char> {
    seq!['m', 'x', 'c', ':', '/', '/']
}

/// Whether the text holds no slash.
pub open spec fn no_slash(s: Seq<char>) -> bool {
    forall|i: int| 0 <= i < s.len() ==> s[i] != '/'
}

/// Whether the text holds no NUL character.
pub open spec fn no_nul(s: Seq<char>) -> bool {
    forall|i: int| 0 <= i < s.len() ==> s[i] != '\0'
}

/// The characters of a media id: ASCII letters, digits and `-`.
pub open spec fn is_media_id_char(c: char) -> bool {
    is_ascii_alphanumeric(c) || c == '-'
}

/// The characters that a valid server name can hold: those of a host name,
/// the brackets, colons and dots of an IPv6 address, and the colon and the
/// digits, with an optional `+`, of a port.
pub open spec fn is_server_name_char(c: char) -> bool {
    is_host_char(c) || c == '[' || c == ']' || c == ':' || c == '+'
}

/// Whether `server` and `media` are the parts of the valid MXC URI `uri`:
/// the URI is the scheme, the server name, a slash and the media id; the
/// server name is not empty; each part holds only its characters.
pub open spec fn valid_mxc_parts(uri: Seq<char>, server: Seq<char>, media: Seq<char>) -> bool {
    &&& uri == mxc_scheme() + server + seq!['/'] + media
    &&& server.len() > 0
    &&& forall|i: int| 0 <= i < server.len() ==> is_server_name_char(#[trigger] server[i])
    &&& forall|i: int| 0 <= i < media.len() ==> is_media_id_char(#[trigger] media[i])
}

/// The server names that `ServerName::parse` accepts.
pub uninterp spec fn valid_server_name(name: Seq<char>) -> bool;

/// Calls `ServerName::parse`, which runs the validation of server names of
/// `ruma-identifiers-validation`. Claims that it accepts the named names and,
/// as that validation shows, that an accepted name is not empty and holds
/// only server-name characters.
#[verifier::external_body]
fn server_name_is_valid(name: &str) -> (valid: bool)
    ensures
        valid == valid_server_name(name@),
        valid ==> name@.len() > 0 && forall|i: int|
            0 <= i < name@.len() ==> is_server_name_char(#[trigger] name@[i]),
{
    matrix_sdk::ruma::ServerName::parse(name).is_ok()
}

/// Whether `k` is the position of the first slash after the scheme of the
/// MXC URI `uri`, with a media id of its characters after it.
pub open spec fn mxc_first_slash(uri: Seq<char>, k: int) -> bool {
    &&& 6 <= k < uri.len()
    &&& uri.take(6) == mxc_scheme()
    &&& uri[k] == '/'
    &&& forall|j: int| 6 <= j < k ==> #[trigger] uri[j] != '/'
    &&& forall|j: int| k < j < uri.len() ==> is_media_id_char(#[trigger] uri[j])
}

/// Whether the URI, if the validation of MXC URIs accepts it (the scheme, a
/// valid server name up to the first slash, then a media id of its
/// characters), has that slash before its byte 256. A valid server name is
/// ASCII, so the slash's position in characters is its position in bytes.
pub open spec fn mxc_slash_fits(uri: Seq<char>) -> bool {
    forall|k: int|
        #![trigger mxc_first_slash(uri, k)]
        mxc_first_slash(uri, k) && valid_server_name(uri.subrange(6, k)) ==> k < 256
}

/// Whether the URI is an MXC URI of the plain shape: the scheme, a non-empty
/// host name of letters, digits, `-` and `.` without a port, a slash, and a
/// media id of its characters.
pub open spec fn plain_mxc_uri(uri: Seq<char>) -> bool {
    exists|k: int|
        #![trigger mxc_first_slash(uri, k)]
        mxc_first_slash(uri, k) && 6 < k && forall|j: int|
            6 <= j < k ==> is_host_char(#[trigger] uri[j])
}

/// Calls `MxcUri::parts` (through which `MxcUri::is_valid`, `server_name` and
/// `media_id` are defined) on the URI. Claims that the result is the named
/// result and, as the validation in `ruma-identifiers-validation` shows, that
/// a valid URI is made of the scheme, the server name, a slash and the media
/// id: the server name ends at the first slash and is a host name of letters,
/// digits, `-` and `.`, or an IPv6 address in brackets, with an optional port
/// (which `u16::from_str` reads, with an optional `+`); the media id holds
/// only ASCII letters, digits and `-`; and that a URI of the plain shape is
/// valid. Once the URI passed the validation, its byte position of the slash
/// is computed as a `u8`, which wraps for a slash at byte 256 or further (and
/// then panics or gives wrong parts); `requires` leaves out the valid URIs
/// with so late a slash.
#[verifier::external_body]
fn mxc_parts(uri: &str) -> (parts: Option<(String, String)>)
    requires
        mxc_slash_fits(uri@),
    ensures
        match parts {
            Some((server, media)) => mxc_uri_parts(uri@) == Some((server@, media@))
                && valid_mxc_parts(uri@, server@, media@),
            None => mxc_uri_parts(uri@) is None,
        },
        plain_mxc_uri(uri@) ==> parts is Some,
{
    let mxc: &matrix_sdk::ruma::MxcUri = uri.into();
    mxc.parts().ok().map(|(server, media)| (server.as_str().to_owned(), media.to_owned()))
}

/// The id made of the parts of an MXC URI, or the fallback id without them.
pub open spec fn spec_uid_of_parts(parts: Option<(Seq<char>, Seq<char>)>) -> Seq<char> {
    match parts {
        Some((server, media)) => server + seq!['_'] + media,
        None => "media_uid"@,
    }
}

/// The id that `media_type_uid` gives a media source.
pub open spec fn spec_media_uid(source: Option<MediaSource>) -> Seq<char> {
    match source {
        Some(s) => spec_uid_of_parts(mxc_uri_parts(media_uri(s))),
        None => "media_uid"@,
    }
}

/// The id of a media from the parts of its MXC URI: `<server>_<media>`, or
/// `media_uid` when the URI is not valid.
pub fn media_uid_from_parts(parts: Option<(String, String)>) -> (uid: String)
    ensures
        uid@ == spec_uid_of_parts(
            match parts {
                Some((server, media)) => Some((server@, media@)),
                None => None,
            },
        ),
{
    match parts {
        Some((server, media)) => {
            let mut uid = server;
            uid.append("_");
            uid.append(media.as_str());
            proof {
                reveal_strlit("_");
            }
            uid
        },
        None => "media_uid".to_owned(),
    }
}

/// The id made of valid parts holds neither a slash nor a NUL character, and
/// its last `_` separates the server name from the media id, neither of which
/// holds one.
pub proof fn lemma_uid_of_valid_parts(uri: Seq<char>, server: Seq<char>, media: Seq<char>)
    requires
        valid_mxc_parts(uri, server, media),
    ensures
        no_slash(server + seq!['_'] + media),
        no_nul(server + seq!['_'] + media),
        forall|i: int| 0 <= i < server.len() ==> #[trigger] server[i] != '_',
        forall|i: int| 0 <= i < media.len() ==> #[trigger] media[i] != '_',
{
    let uid = server + seq!['_'] + media;
    assert forall|i: int| 0 <= i < uid.len() implies uid[i] != '/' && uid[i] != '\0' by {
        if i < server.len() {
            assert(uid[i] == server[i]);
            assert(is_server_name_char(server[i]));
        } else if i > server.len() {
            assert(uid[i] == media[i - server.len() - 1]);
            assert(is_media_id_char(media[i - server.len() - 1]));
        }
    }
    assert forall|i: int| 0 <= i < server.len() implies #[trigger] server[i] != '_' by {
        assert(is_server_name_char(server[i]));
    }
    assert forall|i: int| 0 <= i < media.len() implies #[trigger] media[i] != '_' by {
        assert(is_media_id_char(media[i]));
    }
}

/// Whether the character may stand in a media id.
fn is_media_id_char_exec(c: char) -> (ok: bool)
    ensures
        ok == is_media_id_char(c),
{
    ('0' <= c && c <= '9') || ('a' <= c && c <= 'z') || ('A' <= c && c <= 'Z') || c == '-'
}

/// Whether the URI has its first slash before byte 256 if the validation of
/// MXC URIs accepts it, which `media_type_uid` needs.
pub fn mxc_uri_fits(uri: &str) -> (fits: bool)
    ensures
        fits == mxc_slash_fits(uri@),
{
    let len = uri.unicode_len();
    if len < 6 {
        return true;
    }
    let scheme = uri.get_char(0) == 'm' && uri.get_char(1) == 'x' && uri.get_char(2) == 'c'
        && uri.get_char(3) == ':' && uri.get_char(4) == '/' && uri.get_char(5) == '/';
    if !scheme {
        assert(uri@.take(6) != mxc_scheme()) by {
            if uri@.take(6) == mxc_scheme() {
                assert(uri@.take(6)[0] == uri@[0] && uri@.take(6)[1] == uri@[1] && uri@.take(6)[2]
                    == uri@[2] && uri@.take(6)[3] == uri@[3] && uri@.take(6)[4] == uri@[4]
                    && uri@.take(6)[5] == uri@[5]);
            }
        }
        return true;
    }
    assert(uri@.take(6) =~= mxc_scheme());
    let mut k: usize = 6;
    while k < len && uri.get_char(k) != '/'
        invariant
            6 <= k <= len,
            len == uri@.len(),
            forall|j: int| 6 <= j < k ==> #[trigger] uri@[j] != '/',
        decreases len - k,
    {
        k += 1;
    }
    if k == len || k < 256 {
        // No slash, or one early enough: every first slash is at `k`.
        assert forall|k2: int|
            mxc_first_slash(uri@, k2) && valid_server_name(uri@.subrange(6, k2)) implies k2 < 256 by {
            if k2 != k as int {
                if k2 < k {
                } else {
                    assert(uri@[k as int] != '/' || k == len);
                }
            }
        }
        return true;
    }
    let mut j: usize = k + 1;
    while j < len
        invariant
            6 <= k < j <= len,
            len == uri@.len(),
            uri@[k as int] == '/',
            uri@.take(6) == mxc_scheme(),
            forall|i: int| 6 <= i < k ==> #[trigger] uri@[i] != '/',
            forall|i: int| k < i < j ==> is_media_id_char(#[trigger] uri@[i]),
        decreases len - j,
    {
        let c = uri.get_char(j);
        if !is_media_id_char_exec(c) {
            assert(!mxc_first_slash(uri@, k as int));
            assert forall|k2: int|
                mxc_first_slash(uri@, k2) && valid_server_name(uri@.subrange(6, k2)) implies k2
                < 256 by {
                if k2 < k {
                } else if k2 > k {
                    assert(uri@[k as int] == '/');
                }
            }
            return true;
        }
        j += 1;
    }
    assert(mxc_first_slash(uri@, k as int));
    let server = uri.substring_char(6, k);
    let valid = server_name_is_valid(server);
    proof {
        if !valid {
            assert forall|k2: int|
                mxc_first_slash(uri@, k2) && valid_server_name(uri@.subrange(6, k2)) implies k2
                < 256 by {
                if k2 < k {
                } else if k2 > k {
                    assert(uri@[k as int] == '/');
                }
            }
        }
    }
    !valid
}

/// The id of a media source, when `media_type_uid` can give it: `None` for a
/// valid MXC URI whose slash is at byte 256 or further, which the parser
/// cannot take.
pub fn checked_media_type_uid(media_type: Option<MediaSource>) -> (uid: Option<String>)
    ensures
        match media_type {
            Some(s) => if mxc_slash_fits(media_uri(s)) {
                uid matches Some(u) && u@ == spec_media_uid(media_type)
            } else {
                uid is None
            },
            None => uid matches Some(u) && u@ == spec_media_uid(media_type),
        },
{
    let fits = match &media_type {
        Some(MediaSource::Plain(uri)) => mxc_uri_fits(uri.as_str()),
        Some(MediaSource::Encrypted(uri)) => mxc_uri_fits(uri.as_str()),
        None => true,
    };
    if fits {
        Some(media_type_uid(media_type))
    } else {
        None
    }
}

/// Get the unique id of the given media source.
///
/// It is built from the underlying MXC URI and can be safely used in a
/// filename.
///
/// The id is not guaranteed to be unique for malformed MXC URIs.
pub fn media_type_uid(media_type: Option<MediaSource>) -> (uid: String)
    requires
        media_type matches Some(s) ==> mxc_slash_fits(media_uri(s)),
    ensures
        uid@ == spec_media_uid(media_type),
        no_slash(uid@),
        no_nul(uid@),
{
    let parts = match &media_type {
        Some(MediaSource::Plain(uri)) => mxc_parts(uri.as_str()),
        Some(MediaSource::Encrypted(uri)) => mxc_parts(uri.as_str()),
        None => None,
    };
    proof {
        reveal_strlit("media_uid");
        match &parts {
            Some((server, media)) => {
                lemma_uid_of_valid_parts(media_uri(media_type->0), server@, media@);
            },
            None => {},
        }
    }
    media_uid_from_parts(parts)
}

/// The name of the fallback type of a media whose mime type is unknown.
#[derive(Debug, Clone, Copy, PartialEq, Eq, Structural)]
pub enum MediaFallback {
    Image,
    Video,
    Audio,
    /// Any other type.
    Other,
}

/// The top-level type and the subtype of a mime type, as `Mime::from_str`
/// parses them when the mime type is valid.
pub uninterp spec fn parsed_mime(mime: Seq<char>) -> Option<(Seq<char>, Seq<char>)>;

/// The file extensions known for a mime type, as `mime_guess` lists them.
pub uninterp spec fn known_extensions(toplevel: Seq<char>, sublevel: Seq<char>) -> Option<Seq<Seq<char>>>;

/// Calls `Mime::from_str` and reads the top-level type and the subtype of the
/// mime type. Claims that the result is the named result.
#[verifier::external_body]
fn parse_mime(mime: &str) -> (parsed: Option<(String, String)>)
    ensures
        match parsed {
            Some((top, sub)) => parsed_mime(mime@) == Some((top@, sub@)),
            None => parsed_mime(mime@) is None,
        },
{
    <mime::Mime as std::str::FromStr>::from_str(mime).ok().map(
        |m| (m.type_().as_str().to_owned(), m.subtype().as_str().to_owned()),
    )
}

/// Calls `mime_guess::get_extensions`, which `mime_guess::get_mime_extensions`
/// calls with the type and subtype of the mime. Claims that the result is the
/// named result, and that a list of extensions is never empty, as the tables
/// that the crate's build script writes show.
#[verifier::external_body]
fn mime_extensions(toplevel: &str, sublevel: &str) -> (extensions: Option<Vec<String>>)
    ensures
        match extensions {
            Some(v) => known_extensions(toplevel@, sublevel@) == Some(
                v@.map_values(|e: String| e@),
            ) && v@.len() > 0,
            None => known_extensions(toplevel@, sublevel@) is None,
        },
{
    mime_guess::get_extensions(toplevel, sublevel).map(
        |exts| exts.iter().map(|e| (*e).to_owned()).collect(),
    )
}

/// The extension of the default file name for a mime type: the first known
/// extension of a valid mime type.
pub open spec fn spec_mime_extension(mime_type: Option<Seq<char>>) -> Option<Seq<char>> {
    match mime_type {
        Some(m) => match parsed_mime(m) {
            Some((top, sub)) => match known_extensions(top, sub) {
                Some(exts) => Some(exts[0]),
                None => None,
            },
            None => None,
        },
        None => None,
    }
}

/// The message id of the default file name for a mime type, or for the
/// fallback when the mime type is unknown.
pub open spec fn spec_default_name_msgid(
    mime_type: Option<Seq<char>>,
    fallback: Option<MediaFallback>,
) -> Seq<char> {
    let kind = match mime_type {
        Some(m) => match parsed_mime(m) {
            Some((top, _)) => if top == "image"@ {
                Some(MediaFallback::Image)
            } else if top == "video"@ {
                Some(MediaFallback::Video)
            } else if top == "audio"@ {
                Some(MediaFallback::Audio)
            } else {
                Some(MediaFallback::Other)
            },
            None => fallback,
        },
        None => fallback,
    };
    match kind {
        Some(MediaFallback::Image) => "image"@,
        Some(MediaFallback::Video) => "video"@,
        Some(MediaFallback::Audio) => "audio"@,
        _ => "file"@,
    }
}

/// A file name from a name and an optional extension.
pub open spec fn spec_file_name(name: Seq<char>, extension: Option<Seq<char>>) -> Seq<char> {
    match extension {
        Some(e) => name + seq!['.'] + e,
        None => name,
    }
}

/// The parsed top-level type and subtype of an optional mime type.
fn parse_optional_mime(mime_type: Option<&str>) -> (parsed: Option<(String, String)>)
    ensures
        match mime_type {
            Some(m) => match parsed {
                Some((top, sub)) => parsed_mime(m@) == Some((top@, sub@)),
                None => parsed_mime(m@) is None,
            },
            None => parsed is None,
        },
{
    match mime_type {
        Some(m) => parse_mime(m),
        None => None,
    }
}

/// The extension of the default file name for a mime type: the first known
/// extension of a valid mime type, if any.
pub fn mime_extension(mime_type: Option<&str>) -> (extension: Option<String>)
    ensures
        opt_view(extension) == spec_mime_extension(opt_str_view(mime_type)),
{
    match parse_optional_mime(mime_type) {
        Some((top, sub)) => match mime_extensions(top.as_str(), sub.as_str()) {
            Some(exts) => Some(exts[0].clone()),
            None => None,
        },
        None => None,
    }
}

/// The view of an optional string.
pub open spec fn opt_view(s: Option<String>) -> Option<Seq<char>> {
    match s {
        Some(t) => Some(t@),
        None => None,
    }
}

/// The view of an optional string slice.
pub open spec fn opt_str_view(s: Option<&str>) -> Option<Seq<char>> {
    match s {
        Some(t) => Some(t@),
        None => None,
    }
}

/// The message id of the default name of a file: `image`, `video` or
/// `audio` after the type of a valid mime type, or after the fallback when
/// there is none, else `file`.
pub fn default_name_msgid(mime_type: Option<&str>, fallback: Option<MediaFallback>) -> (msgid: &'static str)
    ensures
        msgid@ == spec_default_name_msgid(opt_str_view(mime_type), fallback),
        crate::i18n::is_msgid(msgid@),
{
    proof {
        reveal_strlit("image");
        reveal_strlit("video");
        reveal_strlit("audio");
        reveal_strlit("file");
    }
    let kind = match parse_optional_mime(mime_type) {
        Some((top, _)) => if same_text(&top, &"image".to_owned()) {
            Some(MediaFallback::Image)
        } else if same_text(&top, &"video".to_owned()) {
            Some(MediaFallback::Video)
        } else if same_text(&top, &"audio".to_owned()) {
            Some(MediaFallback::Audio)
        } else {
            Some(MediaFallback::Other)
        },
        None => fallback,
    };
    match kind {
        Some(MediaFallback::Image) => "image",
        Some(MediaFallback::Video) => "video",
        Some(MediaFallback::Audio) => "audio",
        _ => "file",
    }
}

/// A file name from a name and an optional extension: `name.extension`.
pub fn file_name(name: String, extension: Option<String>) -> (file_name: String)
    ensures
        file_name@ == spec_file_name(name@, opt_view(extension)),
{
    match extension {
        Some(e) => {
            let mut n = name;
            n.append(".");
            n.append(e.as_str());
            proof {
                reveal_strlit(".");
            }
            n
        },
        None => name,
    }
}

/// Get a default filename for a mime type.
///
/// Tries to guess the file extension, but it might not find it.
///
/// If the mime type is unknown, it uses the name for `fallback`. The name is
/// the translation of the message id of `default_name_msgid`.
pub fn filename_for_mime(
    translations: &Translations,
    mime_type: Option<&str>,
    fallback: Option<MediaFallback>,
) -> (name: String)
    ensures
        exists|t: Seq<char>|
            translation_of(translations@, spec_default_name_msgid(opt_str_view(mime_type), fallback), t) && name@
                == spec_file_name(t, spec_mime_extension(opt_str_view(mime_type))),
{
    let msgid = default_name_msgid(mime_type, fallback);
    let default_name = translate(translations, msgid);
    let extension = mime_extension(mime_type);
    let name = file_name(default_name, extension);
    assert(name@ == spec_file_name(default_name@, spec_mime_extension(opt_str_view(mime_type))));
    name
}

/// The event ids that `EventId::parse` accepts.
pub uninterp spec fn event_id_parses(id: Seq<char>) -> bool;

/// ASCII letters and digits.
pub open spec fn is_ascii_alphanumeric(c: char) -> bool {
    is_ascii_digit(c) || is_ascii_lower(c) || is_ascii_upper(c)
}

/// The characters of a host name: ASCII letters, digits, `-` and `.`.
pub open spec fn is_host_char(c: char) -> bool {
    is_ascii_alphanumeric(c) || c == '-' || c == '.'
}

/// Whether `id` is an event id of the plain shape with a server name: at most
/// 255 characters, all ASCII; `$`, a localpart without `:`, then `:` and a
/// host name of letters, digits, `-` and `.`, without a port.
pub open spec fn plain_event_id(id: Seq<char>) -> bool {
    &&& id.len() <= 255
    &&& forall|i: int| 0 <= i < id.len() ==> (id[i] as u32) < 128
    &&& id.len() > 0 && id[0] == '$'
    &&& exists|k: int|
        #![trigger id[k]]
        1 <= k < id.len() - 1 && id[k] == ':' && (forall|i: int| 1 <= i < k ==> id[i] != ':') && (
        forall|i: int| k < i < id.len() ==> is_host_char(id[i]))
}

/// Calls `TransactionId::new`, which creates a random transaction id. Claims
/// what holds of every id it creates, as the source shows: it is a UUID
/// written without hyphens, that is 32 hexadecimal digits, so ASCII letters
/// and digits.
#[verifier::external_body]
fn new_transaction_id() -> (txn_id: String)
    ensures
        txn_id@.len() == 32,
        forall|i: int| 0 <= i < txn_id@.len() ==> is_ascii_alphanumeric(#[trigger] txn_id@[i]),
{
    matrix_sdk::ruma::TransactionId::new().as_str().to_owned()
}

/// Calls `EventId::parse`. Claims that it accepts the named ids, that an
/// accepted id keeps its text, and, as the validation in
/// `ruma-identifiers-validation` shows (at most 255 bytes, the `$` sigil,
/// and a valid server name after the first `:`), that it accepts every id of
/// the plain shape.
#[verifier::external_body]
fn parse_event_id(id: &str) -> (parsed: Option<String>)
    ensures
        parsed is Some == event_id_parses(id@),
        parsed matches Some(p) ==> p@ == id@,
        plain_event_id(id@) ==> parsed is Some,
{
    matrix_sdk::ruma::EventId::parse(id).ok().map(|e| e.as_str().to_owned())
}

/// The event id that stands for a pending event until the server gives its own.
pub open spec fn spec_pending_event_id(txn_id: Seq<char>) -> Seq<char> {
    seq!['$'] + txn_id + ":fractal.gnome.org"@
}

/// The event id that stands for the pending event sent with the given
/// transaction id: `$<txn_id>:fractal.gnome.org`.
pub fn pending_event_id(txn_id: &str) -> (id: String)
    ensures
        id@ == spec_pending_event_id(txn_id@),
{
    let mut id = "$".to_owned();
    id.append(txn_id);
    id.append(":fractal.gnome.org");
    proof {
        reveal_strlit("$");
    }
    id
}

/// The pending event id of a transaction id of 32 ASCII letters and digits has
/// the plain shape of an event id.
proof fn lemma_pending_event_id_is_plain(txn: Seq<char>)
    requires
        txn.len() == 32,
        forall|i: int| 0 <= i < txn.len() ==> is_ascii_alphanumeric(#[trigger] txn[i]),
    ensures
        plain_event_id(spec_pending_event_id(txn)),
{
    reveal_strlit(":fractal.gnome.org");
    let id = spec_pending_event_id(txn);
    let host = ":fractal.gnome.org"@;
    assert(id.len() == 51);
    assert forall|i: int| 1 <= i < 33 implies id[i] == txn[i - 1] by {}
    assert forall|i: int| 33 <= i < 51 implies id[i] == host[i - 33] by {}
    assert forall|i: int| 0 <= i < id.len() implies (id[i] as u32) < 128 by {
        if 1 <= i < 33 {
            assert(is_ascii_alphanumeric(txn[i - 1]));
        }
    }
    assert forall|i: int| 1 <= i < 33 implies id[i] != ':' by {
        assert(is_ascii_alphanumeric(txn[i - 1]));
    }
    assert forall|i: int| 33 < i < 51 implies is_host_char(id[i]) by {}
    assert(id[33] == ':');
}

/// Generate temporary IDs for pending events.
///
/// Returns a `(transaction_id, event_id)` tuple. The `event_id` is derived from
/// the `transaction_id`; it always parses, so the result is always `Some`.
pub fn pending_event_ids() -> (ids: Option<(String, String)>)
    ensures
        ids is Some,
        ids matches Some((txn, event)) ==> event@ == spec_pending_event_id(txn@) && event_id_parses(event@),
        ids matches Some((txn, event)) ==> txn@.len() == 32 && forall|i: int|
            0 <= i < txn@.len() ==> is_ascii_alphanumeric(#[trigger] txn@[i]),
{
    let txn_id = new_transaction_id();
    let candidate = pending_event_id(txn_id.as_str());
    proof {
        lemma_pending_event_id_is_plain(txn_id@);
    }
    match parse_event_id(candidate.as_str()) {
        Some(event_id) => Some((txn_id, event_id)),
        None => None,
    }
}

/// The error of a future that did not finish in time.
#[derive(Debug, Clone, Copy, PartialEq, Eq, Structural)]
pub enum TimeoutFuture {
    Timeout,
}

/// Which of a future and its timeout finished first.
#[derive(Debug)]
pub enum Race<T> {
    /// The future finished first, with this output.
    Finished(T),
    /// The timeout elapsed first.
    TimedOut,
}

/// The result of a future raced against a timeout: its output when it
/// finished first, else the timeout error.
pub fn timeout_result<T>(race: Race<T>) -> (result: Result<T, TimeoutFuture>)
    ensures
        match race {
            Race::Finished(x) => result == Ok::<T, TimeoutFuture>(x),
            Race::TimedOut => result == Err::<T, TimeoutFuture>(TimeoutFuture::Timeout),
        },
{
    match race {
        Race::Finished(x) => Ok(x),
        Race::TimedOut => Err(TimeoutFuture::Timeout),
    }
}

/// Functions that templates call.
pub struct TemplateCallbacks {}

impl TemplateCallbacks {
    /// Whether the string is there and not empty.
    pub fn string_not_empty(string: Option<&str>) -> (not_empty: bool)
        ensures
            not_empty == (string matches Some(s) && s@.len() > 0),
    {
        match string {
            Some(s) => !s.is_empty(),
            None => false,
        }
    }

    /// Whether the object is there.
    pub fn object_is_some<T>(obj: Option<T>) -> (some: bool)
        ensures
            some == obj is Some,
    {
        obj.is_some()
    }
}

} // verus!
