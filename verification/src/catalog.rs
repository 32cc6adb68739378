//! The language catalog: a fixed table from lowercase language names to the
//! two-letter codes that the translation provider understands.

use vstd::prelude::*;

verus! {

/// The code that stands in for a name the catalog does not list.
pub open spec fn default_code() -> Seq<char> {
    "en"@
}

/// The catalog as a mathematical function: the code listed for `name`, if any.
/// Names are matched exactly; there are no aliases.
pub open spec fn lookup(name: Seq<char>) -> Option<Seq<char>> {
    if name == "english"@ {
        Some("en"@)
    } else if name == "thai"@ {
        Some("th"@)
    } else if name == "french"@ {
        Some("fr"@)
    } else if name == "german"@ {
        Some("de"@)
    } else if name == "spanish"@ {
        Some("es"@)
    } else if name == "italian"@ {
        Some("it"@)
    } else if name == "russian"@ {
        Some("ru"@)
    } else if name == "japanese"@ {
        Some("ja"@)
    } else if name == "korean"@ {
        Some("ko"@)
    } else if name == "chinese"@ {
        Some("zh"@)
    } else if name == "arabic"@ {
        Some("ar"@)
    } else if name == "dutch"@ {
        Some("nl"@)
    } else if name == "polish"@ {
        Some("pl"@)
    } else if name == "portuguese"@ {
        Some("pt"@)
    } else if name == "swedish"@ {
        Some("sv"@)
    } else if name == "turkish"@ {
        Some("tr"@)
    } else if name == "vietnamese"@ {
        Some("vi"@)
    } else if name == "bulgarian"@ {
        Some("bg"@)
    } else if name == "czech"@ {
        Some("cs"@)
    } else if name == "danish"@ {
        Some("da"@)
    } else if name == "greek"@ {
        Some("el"@)
    } else if name == "finnish"@ {
        Some("fi"@)
    } else if name == "hebrew"@ {
        Some("he"@)
    } else if name == "hindi"@ {
        Some("hi"@)
    } else if name == "hungarian"@ {
        Some("hu"@)
    } else if name == "indonesian"@ {
        Some("id"@)
    } else if name == "latvian"@ {
        Some("lv"@)
    } else if name == "norwegian"@ {
        Some("no"@)
    } else if name == "romanian"@ {
        Some("ro"@)
    } else if name == "slovak"@ {
        Some("sk"@)
    } else if name == "slovenian"@ {
        Some("sl"@)
    } else if name == "ukrainian"@ {
        Some("uk"@)
    } else if name == "catalan"@ {
        Some("ca"@)
    } else if name == "estonian"@ {
        Some("et"@)
    } else if name == "persian"@ {
        Some("fa"@)
    } else if name == "afrikaans"@ {
        Some("af"@)
    } else if name == "albanian"@ {
        Some("sq"@)
    } else if name == "amharic"@ {
        Some("am"@)
    } else if name == "armenian"@ {
        Some("hy"@)
    } else if name == "azerbaijani"@ {
        Some("az"@)
    } else if name == "bengali"@ {
        Some("bn"@)
    } else if name == "tagalog"@ {
        Some("tl"@)
    } else {
        None
    }
}

/// The code a `Language` carries for `name`: the catalog's, or the default
/// where the catalog has none.
pub open spec fn code_or_default(name: Seq<char>) -> Seq<char> {
    match lookup(name) {
        Some(code) => code,
        None => default_code(),
    }
}

/// Every code that a `Language` can carry has two letters, the default included.
pub proof fn code_has_two_letters(name: Seq<char>)
    ensures
        code_or_default(name).len() == 2,
{
    reveal_strlit("en");
    reveal_strlit("th");
    reveal_strlit("fr");
    reveal_strlit("de");
    reveal_strlit("es");
    reveal_strlit("it");
    reveal_strlit("ru");
    reveal_strlit("ja");
    reveal_strlit("ko");
    reveal_strlit("zh");
    reveal_strlit("ar");
    reveal_strlit("nl");
    reveal_strlit("pl");
    reveal_strlit("pt");
    reveal_strlit("sv");
    reveal_strlit("tr");
    reveal_strlit("vi");
    reveal_strlit("bg");
    reveal_strlit("cs");
    reveal_strlit("da");
    reveal_strlit("el");
    reveal_strlit("fi");
    reveal_strlit("he");
    reveal_strlit("hi");
    reveal_strlit("hu");
    reveal_strlit("id");
    reveal_strlit("lv");
    reveal_strlit("no");
    reveal_strlit("ro");
    reveal_strlit("sk");
    reveal_strlit("sl");
    reveal_strlit("uk");
    reveal_strlit("ca");
    reveal_strlit("et");
    reveal_strlit("fa");
    reveal_strlit("af");
    reveal_strlit("sq");
    reveal_strlit("am");
    reveal_strlit("hy");
    reveal_strlit("az");
    reveal_strlit("bn");
    reveal_strlit("tl");
}

} // verus!
