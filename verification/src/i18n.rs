//! Translation of the client's user-visible strings.

use vstd::prelude::*;
use crate::gettext_calls::{
    bind_text_domain, bind_text_domain_codeset, gettext, set_all_locale_categories,
    set_text_domain, CatalogsBinding, CodesetBinding, DomainChoice, LocaleSetting,
};

verus! {

/// Whether a text can be handed to the gettext C library: it holds no NUL
/// character.
pub open spec fn is_msgid(msgid: Seq<char>) -> bool {
    forall|i: int| 0 <= i < msgid.len() ==> msgid[i] != '\0'
}

/// Whether `text` is what the catalogs installed for the current locale give
/// for `msgid`. This depends on the locale and on the catalogs, so nothing is
/// stated of it beyond what `gettext` returns.
pub uninterp spec fn translated(msgid: Seq<char>, text: Seq<char>) -> bool;

/// How the translations were set up: what the calls into gettext were handed
/// and whether each succeeded.
pub struct TranslationsModel {
    /// The locale set for all categories; the empty one takes the locale
    /// from the environment.
    pub locale: Seq<char>,
    /// Whether setting the locale succeeded.
    pub locale_set: bool,
    /// The text domain handed to every call.
    pub domain: Seq<char>,
    /// The directory of the catalogs.
    pub locale_dir: Seq<char>,
    /// Whether binding the directory of the catalogs succeeded.
    pub catalogs_bound: bool,
    /// The codeset the translations are converted to.
    pub codeset: Seq<char>,
    /// Whether binding the codeset succeeded.
    pub codeset_bound: bool,
    /// Whether choosing the domain as the one `gettext` looks in succeeded.
    pub domain_chosen: bool,
}

/// The translations of the client, as `init_translations` set them up.
pub struct Translations {
    locale: LocaleSetting,
    catalogs: CatalogsBinding,
    codeset: CodesetBinding,
    choice: DomainChoice,
}

impl View for Translations {
    type V = TranslationsModel;

    closed spec fn view(&self) -> TranslationsModel {
        TranslationsModel {
            locale: self.locale@.0,
            locale_set: self.locale@.1,
            domain: self.choice@.0,
            locale_dir: self.catalogs@.1,
            catalogs_bound: self.catalogs@.2,
            codeset: self.codeset@.1,
            codeset_bound: self.codeset@.2,
            domain_chosen: self.choice@.1,
        }
    }
}

impl Translations {
    /// Every call was handed the same domain, and the codeset is UTF-8.
    #[verifier::type_invariant]
    closed spec fn one_domain_in_utf8(&self) -> bool {
        &&& self.catalogs@.0 == self.choice@.0
        &&& self.codeset@.0 == self.choice@.0
        &&& self.codeset@.1 == "UTF-8"@
    }
}

/// Whether translations can be looked up: the UTF-8 codeset was bound for the
/// domain, and the domain was chosen.
pub open spec fn utf8_ready(t: TranslationsModel) -> bool {
    t.codeset == "UTF-8"@ && t.codeset_bound && t.domain_chosen
}

/// Whether `text` is what `translate` shows for `msgid`: a translation when
/// translations can be looked up, else the message id itself.
pub open spec fn translation_of(t: TranslationsModel, msgid: Seq<char>, text: Seq<char>) -> bool {
    if utf8_ready(t) {
        translated(msgid, text)
    } else {
        text == msgid
    }
}

/// Set up the translations of the client: the locale of all categories
/// from the environment, the catalogs of the `fractal` domain under
/// `locale_dir`, and `fractal` as the domain `gettext` looks in; and, so
/// that `gettext` returns valid text, UTF-8 as the codeset of the domain.
/// Whether each call succeeded is recorded; the program carries on either
/// way.
pub fn init_translations(locale_dir: &str) -> (translations: Translations)
    requires
        is_msgid(locale_dir@),
    ensures
        translations@.locale == ""@,
        translations@.domain == "fractal"@,
        translations@.locale_dir == locale_dir@,
        translations@.codeset == "UTF-8"@,
{
    proof {
        reveal_strlit("fractal");
        reveal_strlit("UTF-8");
        reveal_strlit("");
    }
    let locale = set_all_locale_categories("");
    let catalogs = bind_text_domain("fractal", locale_dir);
    let codeset = bind_text_domain_codeset("fractal", "UTF-8");
    let choice = set_text_domain("fractal");
    Translations { locale, catalogs, codeset, choice }
}

/// The text shown for a message id: its translation when the UTF-8 codeset
/// was bound and the domain chosen, else the message id itself, rather than
/// a translation that may not be valid UTF-8.
pub(crate) fn translate(translations: &Translations, msgid: &str) -> (text: String)
    requires
        is_msgid(msgid@),
    ensures
        translation_of(translations@, msgid@, text@),
{
    proof {
        use_type_invariant(translations);
        reveal_strlit("UTF-8");
    }
    if translations.codeset.succeeded() && translations.choice.succeeded() {
        gettext(&translations.codeset, &translations.choice, msgid)
    } else {
        msgid.to_owned()
    }
}

} // verus!
