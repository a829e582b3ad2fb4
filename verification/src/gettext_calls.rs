//! The calls into the gettext library, each recording what it was handed
//! and whether it succeeded.

use vstd::prelude::*;
use crate::i18n::{is_msgid, translated};

verus! {

/// A call of `bindtextdomain`: the domain, the directory of its catalogs,
/// and whether the call succeeded.
pub struct CatalogsBinding {
    domain: String,
    dir: String,
    succeeded: bool,
}

impl View for CatalogsBinding {
    type V = (Seq<char>, Seq<char>, bool);

    closed spec fn view(&self) -> (Seq<char>, Seq<char>, bool) {
        (self.domain@, self.dir@, self.succeeded)
    }
}

/// A call of `bind_textdomain_codeset`: the domain, the codeset, and whether
/// the call succeeded.
pub struct CodesetBinding {
    domain: String,
    codeset: String,
    succeeded: bool,
}

impl View for CodesetBinding {
    type V = (Seq<char>, Seq<char>, bool);

    closed spec fn view(&self) -> (Seq<char>, Seq<char>, bool) {
        (self.domain@, self.codeset@, self.succeeded)
    }
}

impl CodesetBinding {
    /// Whether the call succeeded.
    pub fn succeeded(&self) -> (succeeded: bool)
        ensures
            succeeded == self@.2,
    {
        self.succeeded
    }
}

/// A call of `textdomain`: the domain chosen, and whether the call
/// succeeded.
pub struct DomainChoice {
    domain: String,
    succeeded: bool,
}

impl View for DomainChoice {
    type V = (Seq<char>, bool);

    closed spec fn view(&self) -> (Seq<char>, bool) {
        (self.domain@, self.succeeded)
    }
}

impl DomainChoice {
    /// Whether the call succeeded.
    pub fn succeeded(&self) -> (succeeded: bool)
        ensures
            succeeded == self@.1,
    {
        self.succeeded
    }
}

/// A call of `setlocale` for all locale categories: the locale it was
/// handed, and whether the call succeeded.
pub struct LocaleSetting {
    locale: String,
    succeeded: bool,
}

impl View for LocaleSetting {
    type V = (Seq<char>, bool);

    closed spec fn view(&self) -> (Seq<char>, bool) {
        (self.locale@, self.succeeded)
    }
}

/// Calls `gettextrs::setlocale` for all categories (`LocaleCategory::LcAll`)
/// with the given locale; the empty locale takes the locale from the
/// environment. Claims that the record holds the locale it was handed;
/// whether the call succeeded (which depends on the environment) is not
/// stated. It panics on a NUL character in the locale, which `requires`
/// leaves out.
#[verifier::external_body]
pub(crate) fn set_all_locale_categories(locale: &str) -> (setting: LocaleSetting)
    requires
        is_msgid(locale@),
    ensures
        setting@.0 == locale@,
{
    let succeeded = gettextrs::setlocale(gettextrs::LocaleCategory::LcAll, locale).is_some();
    LocaleSetting { locale: locale.to_owned(), succeeded }
}

/// Calls `gettextrs::bindtextdomain`, which tells where the catalogs of the
/// domain are. Claims that the record holds the domain and the directory it
/// was handed; whether it succeeded is not stated. It panics on a NUL
/// character in its arguments, which `requires` leaves out.
#[verifier::external_body]
pub(crate) fn bind_text_domain(domain: &str, dir: &str) -> (binding: CatalogsBinding)
    requires
        is_msgid(domain@),
        is_msgid(dir@),
    ensures
        binding@.0 == domain@,
        binding@.1 == dir@,
{
    let succeeded = gettextrs::bindtextdomain(domain, dir).is_ok();
    CatalogsBinding { domain: domain.to_owned(), dir: dir.to_owned(), succeeded }
}

/// Calls `gettextrs::bind_textdomain_codeset`, which makes gettext convert
/// the translations of the domain to the codeset. Claims that the record
/// holds the domain and the codeset it was handed; whether it succeeded is
/// not stated. It panics on a NUL character in its arguments, which
/// `requires` leaves out.
#[verifier::external_body]
pub(crate) fn bind_text_domain_codeset(domain: &str, codeset: &str) -> (binding: CodesetBinding)
    requires
        is_msgid(domain@),
        is_msgid(codeset@),
    ensures
        binding@.0 == domain@,
        binding@.1 == codeset@,
{
    let succeeded = gettextrs::bind_textdomain_codeset(domain, codeset).is_ok();
    CodesetBinding { domain: domain.to_owned(), codeset: codeset.to_owned(), succeeded }
}

/// Calls `gettextrs::textdomain`, which makes the domain the one that
/// `gettext` looks in. Claims that the record holds the domain it was
/// handed; whether it succeeded is not stated. It panics on a NUL character
/// in the domain, which `requires` leaves out.
#[verifier::external_body]
pub(crate) fn set_text_domain(domain: &str) -> (choice: DomainChoice)
    requires
        is_msgid(domain@),
    ensures
        choice@.0 == domain@,
{
    let succeeded = gettextrs::textdomain(domain).is_ok();
    DomainChoice { domain: domain.to_owned(), succeeded }
}

/// Calls `gettextrs::gettext`, which looks the message id up in the catalog
/// of the current locale. Claims that the result is a translation of the
/// message id in the sense of `translated`, and nothing more: which text it
/// is depends on the locale and on the catalogs installed. `gettext` panics
/// on a message id with a NUL character, and on a translation that is not
/// UTF-8; `requires` leaves out the first, and asks for the records of a
/// successful binding of the UTF-8 codeset for the domain that a successful
/// `textdomain` chose, which rules out the second.
#[verifier::external_body]
pub(crate) fn gettext(codeset: &CodesetBinding, choice: &DomainChoice, msgid: &str) -> (text: String)
    requires
        is_msgid(msgid@),
        codeset@.1 == "UTF-8"@,
        codeset@.2,
        choice@.1,
        codeset@.0 == choice@.0,
    ensures
        translated(msgid@, text@),
{
    gettextrs::gettext(msgid)
}

} // verus!
