//! The languages of the user interface.

use vstd::prelude::*;
use vstd::string::StringExecFns;


verus! {

/// A language that the user interface can speak.
#[derive(Debug, Clone, Copy, PartialEq, Eq, Hash, Structural)]
pub enum Language {
    English,
    Chinese,
}

impl Language {
    /// The tag of the language.
    pub open spec fn spec_as_str(&self) -> Seq<char> {
        match self {
            Language::English => "en"@,
            Language::Chinese => "zh-CN"@,
        }
    }

    /// The tag of the language: `en` or `zh-CN`.
    pub fn as_str(&self) -> (tag: &'static str)
        ensures
            tag@ == self.spec_as_str(),
    {
        match self {
            Language::English => "en",
            Language::Chinese => "zh-CN",
        }
    }
}

/// Whether a locale setting asks for Chinese: it begins with `zh`.
pub open spec fn asks_for_chinese(setting: Seq<char>) -> bool {
    setting.len() >= 2 && setting[0] == 'z' && setting[1] == 'h'
}

/// The language that the locale settings ask for: that of `lang` where it is
/// set, else that of `language`; Chinese where the setting begins with `zh`,
/// English for anything else and where neither is set.
pub open spec fn spec_detect_system_language(lang: Option<String>, language: Option<String>)
    -> Language {
    match lang {
        Some(setting) => if asks_for_chinese(setting@) {
            Language::Chinese
        } else {
            Language::English
        },
        None => match language {
            Some(setting) => if asks_for_chinese(setting@) {
                Language::Chinese
            } else {
                Language::English
            },
            None => Language::English,
        },
    }
}

fn begins_with_zh(setting: &str) -> (r: bool)
    ensures
        r == asks_for_chinese(setting@),
{
    let mut seen: usize = 0;
    for c in it: setting.chars()
        invariant
            it.seq() == setting@,
            seen <= 2,
            seen == if it.index() < 2 {
                it.index()
            } else {
                2
            },
            seen >= 1 ==> setting@[0] == 'z',
            seen >= 2 ==> setting@[1] == 'h',
    {
        if seen == 0 {
            if c != 'z' {
                return false;
            }
            seen = 1;
        } else if seen == 1 {
            if c != 'h' {
                return false;
            }
            seen = 2;
        } else {
            return true;
        }
    }
    seen == 2
}

/// The language that the locale settings ask for, given the values of the
/// environment variables `LANG` and `LANGUAGE`, each `None` where the
/// variable is not set. See `spec_detect_system_language`.
pub fn detect_system_language(lang: Option<String>, language: Option<String>) -> (chosen: Language)
    ensures
        chosen == spec_detect_system_language(lang, language),
{
    let setting = match lang {
        Some(setting) => Some(setting),
        None => language,
    };
    match setting {
        Some(setting) => if begins_with_zh(setting.as_str()) {
            Language::Chinese
        } else {
            Language::English
        },
        None => Language::English,
    }
}

/// One translated text.
#[derive(Debug, Clone)]
pub struct Translation {
    /// The key that the text is asked for by.
    pub key: String,
    /// The text.
    pub text: String,
}

/// The texts of the user interface in each language, and the language that
/// is in use. The language is part of the value: whoever holds the value
/// decides which language is in use.
pub struct LanguageManager {
    current: Language,
    english: Vec<Translation>,
    chinese: Vec<Translation>,
}

/// A language manager as contracts see it.
pub struct LanguageManagerView {
    pub current: Language,
    pub english: Seq<Translation>,
    pub chinese: Seq<Translation>,
}

/// Whether `i` is the first place at which a list of translations has a
/// key.
pub open spec fn is_first_translation(list: Seq<Translation>, key: Seq<char>, i: int) -> bool {
    &&& 0 <= i < list.len()
    &&& list[i].key@ == key
    &&& forall|j: int| 0 <= j < i ==> (#[trigger] list[j]).key@ != key
}

/// Whether a list of translations has a key.
pub open spec fn has_translation(list: Seq<Translation>, key: Seq<char>) -> bool {
    exists|i: int| 0 <= i < list.len() && (#[trigger] list[i]).key@ == key
}

impl LanguageManagerView {
    /// The translations of the language in use.
    pub open spec fn catalog(self) -> Seq<Translation> {
        match self.current {
            Language::English => self.english,
            Language::Chinese => self.chinese,
        }
    }

    /// Whether a text is the one that a key stands for in the language in
    /// use: the first translation of the key, or the key itself where it
    /// has none.
    pub open spec fn is_text_of(self, key: Seq<char>, text: Seq<char>) -> bool {
        if has_translation(self.catalog(), key) {
            exists|i: int|
                #![trigger is_first_translation(self.catalog(), key, i)]
                is_first_translation(self.catalog(), key, i) && text == self.catalog()[i].text@
        } else {
            text == key
        }
    }
}

impl View for LanguageManager {
    type V = LanguageManagerView;

    closed spec fn view(&self) -> LanguageManagerView {
        LanguageManagerView {
            current: self.current,
            english: self.english@,
            chinese: self.chinese@,
        }
    }
}

impl LanguageManager {
    /// A manager with the given translations for each language, and the
    /// given language in use.
    pub fn new(english: Vec<Translation>, chinese: Vec<Translation>, current: Language) -> (manager:
        LanguageManager)
        ensures
            manager@ == (LanguageManagerView { current, english: english@, chinese: chinese@ }),
    {
        LanguageManager { current, english, chinese }
    }

    /// The text that a key stands for in the language in use. A key without
    /// a translation in that language stands for itself.
    pub fn get_text(&self, key: &str) -> (text: String)
        ensures
            self@.is_text_of(key@, text@),
    {
        let catalog = match self.current {
            Language::English => &self.english,
            Language::Chinese => &self.chinese,
        };
        let wanted = key.to_owned();
        let mut i: usize = 0;
        while i < catalog.len()
            invariant
                i <= catalog@.len(),
                catalog@ == self@.catalog(),
                wanted@ == key@,
                forall|j: int| 0 <= j < i ==> (#[trigger] catalog@[j]).key@ != key@,
            decreases catalog.len() - i,
        {
            if catalog[i].key == wanted {
                assert(is_first_translation(self@.catalog(), key@, i as int));
                return catalog[i].text.clone();
            }
            i += 1;
        }
        String::from_str(key)
    }

    /// Puts a language in use.
    pub fn set_language(&mut self, language: Language)
        ensures
            final(self)@ == (LanguageManagerView { current: language, ..old(self)@ }),
    {
        self.current = language;
    }

    /// The language in use.
    pub fn get_current_language(&self) -> (language: Language)
        ensures
            language == self@.current,
    {
        self.current
    }
}

/// The text for a key. No translations are loaded here: the text is the key
/// itself.
pub fn t(key: &str) -> (text: String)
    ensures
        text@ == key@,
{
    String::from_str(key)
}

} // verus!
