//! A language as the store keeps it: its name and the provider's code for it.

use crate::catalog::{code_or_default, lookup};
use crate::text::str_eq;
use vstd::prelude::*;

verus! {

/// The condition that a name is not in the catalog.
#[derive(Debug, Clone, Copy, PartialEq, Eq)]
pub struct LanguageNotFound;

/// A language name together with the code derived from it.
#[derive(Debug)]
pub struct Language {
    pub name: String,
    pub code: String,
}

/// What a `Language` is, as plain text values.
pub struct LanguageView {
    pub name: Seq<char>,
    pub code: Seq<char>,
}

/// The language that `Language::new` builds for `name`.
pub open spec fn language_of(name: Seq<char>) -> LanguageView {
    LanguageView { name: name, code: code_or_default(name) }
}

impl View for Language {
    type V = LanguageView;

    open spec fn view(&self) -> LanguageView {
        LanguageView { name: self.name@, code: self.code@ }
    }
}

impl Language {
    /// A language is well formed when its code is the one the catalog gives
    /// for its name, or the default where the catalog has none.
    pub open spec fn wf(&self) -> bool {
        self.code@ == code_or_default(self.name@)
    }

    /// Builds the language called `name`. A name that the catalog does not
    /// list is kept, with the default code.
    pub fn new(name: String) -> (r: Language)
        ensures
            r@ == language_of(name@),
            r.wf(),
    {
        let code = match Language::retrieve_language_code(&name) {
            Ok(code) => code,
            Err(_) => "en".to_owned(),
        };
        Language { name, code }
    }

    /// A copy of this language.
    pub fn clone(&self) -> (r: Language)
        ensures
            r@ == self@,
    {
        Language { name: self.name.clone(), code: self.code.clone() }
    }

    /// Looks `language` up in the catalog. The name must already be in lower
    /// case; it is matched exactly.
    pub fn retrieve_language_code(language: &String) -> (r: Result<String, LanguageNotFound>)
        ensures
            match r {
                Ok(code) => lookup(language@) == Some(code@),
                Err(_) => lookup(language@).is_none(),
            },
    {
        let name = language.as_str();
        if str_eq(name, "english") {
            return Ok("en".to_owned());
        }
        if str_eq(name, "thai") {
            return Ok("th".to_owned());
        }
        if str_eq(name, "french") {
            return Ok("fr".to_owned());
        }
        if str_eq(name, "german") {
            return Ok("de".to_owned());
        }
        if str_eq(name, "spanish") {
            return Ok("es".to_owned());
        }
        if str_eq(name, "italian") {
            return Ok("it".to_owned());
        }
        if str_eq(name, "russian") {
            return Ok("ru".to_owned());
        }
        if str_eq(name, "japanese") {
            return Ok("ja".to_owned());
        }
        if str_eq(name, "korean") {
            return Ok("ko".to_owned());
        }
        if str_eq(name, "chinese") {
            return Ok("zh".to_owned());
        }
        if str_eq(name, "arabic") {
            return Ok("ar".to_owned());
        }
        if str_eq(name, "dutch") {
            return Ok("nl".to_owned());
        }
        if str_eq(name, "polish") {
            return Ok("pl".to_owned());
        }
        if str_eq(name, "portuguese") {
            return Ok("pt".to_owned());
        }
        if str_eq(name, "swedish") {
            return Ok("sv".to_owned());
        }
        if str_eq(name, "turkish") {
            return Ok("tr".to_owned());
        }
        if str_eq(name, "vietnamese") {
            return Ok("vi".to_owned());
        }
        if str_eq(name, "bulgarian") {
            return Ok("bg".to_owned());
        }
        if str_eq(name, "czech") {
            return Ok("cs".to_owned());
        }
        if str_eq(name, "danish") {
            return Ok("da".to_owned());
        }
        if str_eq(name, "greek") {
            return Ok("el".to_owned());
        }
        if str_eq(name, "finnish") {
            return Ok("fi".to_owned());
        }
        if str_eq(name, "hebrew") {
            return Ok("he".to_owned());
        }
        if str_eq(name, "hindi") {
            return Ok("hi".to_owned());
        }
        if str_eq(name, "hungarian") {
            return Ok("hu".to_owned());
        }
        if str_eq(name, "indonesian") {
            return Ok("id".to_owned());
        }
        if str_eq(name, "latvian") {
            return Ok("lv".to_owned());
        }
        if str_eq(name, "norwegian") {
            return Ok("no".to_owned());
        }
        if str_eq(name, "romanian") {
            return Ok("ro".to_owned());
        }
        if str_eq(name, "slovak") {
            return Ok("sk".to_owned());
        }
        if str_eq(name, "slovenian") {
            return Ok("sl".to_owned());
        }
        if str_eq(name, "ukrainian") {
            return Ok("uk".to_owned());
        }
        if str_eq(name, "catalan") {
            return Ok("ca".to_owned());
        }
        if str_eq(name, "estonian") {
            return Ok("et".to_owned());
        }
        if str_eq(name, "persian") {
            return Ok("fa".to_owned());
        }
        if str_eq(name, "afrikaans") {
            return Ok("af".to_owned());
        }
        if str_eq(name, "albanian") {
            return Ok("sq".to_owned());
        }
        if str_eq(name, "amharic") {
            return Ok("am".to_owned());
        }
        if str_eq(name, "armenian") {
            return Ok("hy".to_owned());
        }
        if str_eq(name, "azerbaijani") {
            return Ok("az".to_owned());
        }
        if str_eq(name, "bengali") {
            return Ok("bn".to_owned());
        }
        if str_eq(name, "tagalog") {
            return Ok("tl".to_owned());
        }
        Err(LanguageNotFound)
    }
}

} // verus!
