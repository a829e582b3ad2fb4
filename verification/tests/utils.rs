use fractal::utils::{
    checked_media_type_uid, filename_for_mime, media_type_uid, media_uid_from_parts, mxc_uri_fits, pending_event_id, pending_event_ids, style_scheme_name,
    timeout_result, uint_to_i32, validate_password, MediaFallback, MediaSource, PasswordValidity,
    Race, TemplateCallbacks, TimeoutFuture, default_name_msgid, mime_extension, file_name,
};
use fractal::i18n::{init_translations, Translations};

fn translations() -> Translations {
    init_translations("/usr/share/locale")
}

#[test]
fn strong_password_passes_every_check() {
    let v = validate_password("Passw0rd!");
    assert!(v.has_lowercase && v.has_uppercase && v.has_number && v.has_symbol && v.has_length);
    assert_eq!(v.progress, 100);
}

#[test]
fn empty_password_passes_nothing() {
    let v = validate_password("");
    assert_eq!(v, PasswordValidity::new());
    assert_eq!(v.progress, 0);
}

#[test]
fn short_lowercase_password_makes_some_progress() {
    let v = validate_password("abc");
    assert!(v.has_lowercase);
    assert!(!v.has_uppercase && !v.has_number && !v.has_symbol && !v.has_length);
    assert_eq!(v.progress, 20);
}

#[test]
fn password_length_counts_characters() {
    // Four characters of two bytes each are only four characters.
    let v = validate_password("éééé");
    assert!(!v.has_length);
    assert!(v.has_lowercase);
    assert_eq!(v.progress, 20);
    let e = validate_password("éééééééé");
    assert!(e.has_length);
    assert_eq!(e.progress, 40);
    let w = validate_password("1234567");
    assert!(!w.has_length);
    assert!(w.has_number);
    assert_eq!(w.progress, 20);
}

#[test]
fn password_characters_count_in_one_class_each() {
    // A space and punctuation are symbols; a non-ASCII digit is a number.
    let v = validate_password(" .٣");
    assert!(v.has_symbol && v.has_number);
    assert!(!v.has_lowercase && !v.has_uppercase);
    assert_eq!(v.progress, 40);
}

#[test]
fn default_validity_is_new() {
    assert_eq!(PasswordValidity::default(), PasswordValidity::new());
}

#[test]
fn uint_conversion_keeps_small_values() {
    assert_eq!(uint_to_i32(Some(0)), 0);
    assert_eq!(uint_to_i32(Some(42)), 42);
    assert_eq!(uint_to_i32(Some(65535)), 65535);
    assert_eq!(uint_to_i32(Some(65536)), 65536);
    assert_eq!(uint_to_i32(Some(70000)), 70000);
    assert_eq!(uint_to_i32(Some(2147483647)), 2147483647);
}

#[test]
fn uint_conversion_fails_to_minus_one() {
    assert_eq!(uint_to_i32(Some(2147483648)), -1);
    assert_eq!(uint_to_i32(Some(9007199254740991)), -1);
    assert_eq!(uint_to_i32(None), -1);
}

#[test]
fn style_scheme_follows_dark_mode() {
    assert_eq!(style_scheme_name(true), "Adwaita-dark");
    assert_eq!(style_scheme_name(false), "Adwaita");
}

#[test]
fn media_uid_from_plain_uri() {
    let uid = media_type_uid(Some(MediaSource::Plain("mxc://example.org/abc123".to_owned())));
    assert_eq!(uid, "example.org_abc123");
}

#[test]
fn media_uid_from_encrypted_file() {
    let uid = media_type_uid(Some(MediaSource::Encrypted("mxc://matrix.org:8448/A-b".to_owned())));
    assert_eq!(uid, "matrix.org:8448_A-b");
}

#[test]
fn media_uid_of_malformed_uri() {
    assert_eq!(media_type_uid(Some(MediaSource::Plain("https://example.org/a".to_owned()))), "media_uid");
    assert_eq!(media_type_uid(Some(MediaSource::Plain("mxc://example.org".to_owned()))), "media_uid");
    assert_eq!(media_type_uid(Some(MediaSource::Plain("mxc://example.org/a/b".to_owned()))), "media_uid");
    assert_eq!(media_type_uid(None), "media_uid");
    let long_server = format!("mxc://{}/a", "h".repeat(300));
    assert_eq!(media_type_uid(Some(MediaSource::Plain(format!("https{}", &long_server[3..])))), "media_uid");
}

#[test]
fn media_uid_of_late_slash() {
    let bad_port = format!("mxc://{}:x/abc", "a".repeat(250));
    assert!(mxc_uri_fits(&bad_port));
    assert_eq!(media_type_uid(Some(MediaSource::Plain(bad_port.clone()))), "media_uid");
    assert_eq!(checked_media_type_uid(Some(MediaSource::Plain(bad_port))), Some("media_uid".to_owned()));
    let valid_late = format!("mxc://{}/abc", "a".repeat(300));
    assert!(!mxc_uri_fits(&valid_late));
    assert_eq!(checked_media_type_uid(Some(MediaSource::Plain(valid_late))), None);
    assert!(mxc_uri_fits("mxc://example.org/abc123"));
    assert_eq!(
        checked_media_type_uid(Some(MediaSource::Plain("mxc://example.org/abc123".to_owned()))),
        Some("example.org_abc123".to_owned())
    );
    assert_eq!(checked_media_type_uid(None), Some("media_uid".to_owned()));
}

#[test]
fn media_uid_of_long_invalid_uri() {
    let bad_server = format!("mxc://{}/a", "_".repeat(300));
    assert_eq!(media_type_uid(Some(MediaSource::Plain(bad_server))), "media_uid");
    let bad_media = format!("mxc://{}/a!", "h".repeat(300));
    assert_eq!(media_type_uid(Some(MediaSource::Encrypted(bad_media))), "media_uid");
}

#[test]
fn media_uid_of_long_media_id() {
    let media = "a".repeat(300);
    let uid = media_type_uid(Some(MediaSource::Plain(format!("mxc://example.org/{}", media))));
    assert_eq!(uid, format!("example.org_{}", media));
    let same = media_type_uid(Some(MediaSource::Encrypted(format!("mxc://example.org/{}", media))));
    assert_eq!(uid, same);
}

#[test]
fn media_uid_from_uri_parts() {
    assert_eq!(media_uid_from_parts(Some(("example.org".to_owned(), "abc".to_owned()))), "example.org_abc");
    assert_eq!(media_uid_from_parts(None), "media_uid");
}

#[test]
fn filename_with_known_extension() {
    let tr = translations();
    assert_eq!(filename_for_mime(&tr, Some("image/png"), None), "image.png");
    assert_eq!(filename_for_mime(&tr, Some("video/mp4"), None), "video.mp4");
    assert_eq!(filename_for_mime(&tr, Some("audio/ogg"), None), "audio.oga");
    assert_eq!(filename_for_mime(&tr, Some("application/pdf"), None), "file.pdf");
}

#[test]
fn filename_without_known_extension() {
    let tr = translations();
    assert_eq!(filename_for_mime(&tr, Some("image/x-unknown-thing"), None), "image");
    assert_eq!(filename_for_mime(&tr, Some("foo/bar"), Some(MediaFallback::Video)), "file");
}

#[test]
fn filename_uses_fallback_for_invalid_mime() {
    let tr = translations();
    assert_eq!(filename_for_mime(&tr, Some("not a mime"), Some(MediaFallback::Image)), "image");
    assert_eq!(filename_for_mime(&tr, None, Some(MediaFallback::Audio)), "audio");
    assert_eq!(filename_for_mime(&tr, None, Some(MediaFallback::Other)), "file");
    assert_eq!(filename_for_mime(&tr, None, None), "file");
}

#[test]
fn filename_parts() {
    assert_eq!(default_name_msgid(Some("video/webm"), None), "video");
    assert_eq!(mime_extension(Some("image/png")), Some("png".to_owned()));
    assert_eq!(mime_extension(Some("garbage")), None);
    assert_eq!(file_name("a".to_owned(), Some("b".to_owned())), "a.b");
    assert_eq!(file_name("a".to_owned(), None), "a");
}

#[test]
fn pending_event_id_format() {
    assert_eq!(pending_event_id("abc"), "$abc:fractal.gnome.org");
}

#[test]
fn pending_event_ids_are_derived() {
    let (txn, event) = pending_event_ids().expect("a valid event id");
    assert_eq!(event, format!("${}:fractal.gnome.org", txn));
    assert_eq!(txn.len(), 32);
    assert!(txn.chars().all(|c| c.is_ascii_alphanumeric()));
    let (txn2, _) = pending_event_ids().expect("a valid event id");
    assert_ne!(txn, txn2);
}

#[test]
fn timeout_outcomes() {
    assert_eq!(timeout_result(Race::Finished(3)), Ok(3));
    assert_eq!(timeout_result::<u8>(Race::TimedOut), Err(TimeoutFuture::Timeout));
}

#[test]
fn template_callbacks() {
    assert!(TemplateCallbacks::string_not_empty(Some("a")));
    assert!(!TemplateCallbacks::string_not_empty(Some("")));
    assert!(!TemplateCallbacks::string_not_empty(None));
    assert!(TemplateCallbacks::object_is_some(Some(1)));
    assert!(!TemplateCallbacks::object_is_some::<u8>(None));
}

#[test]
fn appending_keeps_passed_checks() {
    let a = validate_password("abcdefgh");
    let b = validate_password("abcdefghX1!");
    assert!(a.has_length && b.has_length && a.has_lowercase && b.has_lowercase);
    assert!(b.progress >= a.progress);
    assert_eq!(b.progress, 100);
}
