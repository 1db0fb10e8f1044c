//! The languages in which the service writes addresses.

use crate::api::envelope::Payload;
use crate::api::viewed;
use crate::json::{contents, member, text_member, JsonView};
use crate::text::{join, joined};
use serde_json::Value;
use vstd::prelude::*;
use vstd::string::StringExecFns;

verus! {

/// One language: its code, its name in English and its name in itself.
#[derive(Debug)]
pub struct Language {
    pub code: String,
    pub name: String,
    pub native_name: String,
}

pub struct LanguageView {
    pub code: Seq<char>,
    pub name: Seq<char>,
    pub native_name: Seq<char>,
}

impl LanguageView {
    /// The name, then the code in round brackets.
    pub open spec fn text(self) -> Seq<char> {
        self.name + " ("@ + self.code + ")"@
    }
}

impl View for Language {
    type V = LanguageView;

    open spec fn view(&self) -> LanguageView {
        LanguageView { code: self.code@, name: self.name@, native_name: self.native_name@ }
    }
}

impl Language {
    /// The language that a document holds: an object with the strings `code`,
    /// `name` and `nativeName`.
    pub open spec fn shape(doc: JsonView) -> Option<LanguageView> {
        match (
            doc.text_member("code"@),
            doc.text_member("name"@),
            doc.text_member("nativeName"@),
        ) {
            (Some(code), Some(name), Some(native_name)) => Some(
                LanguageView { code, name, native_name },
            ),
            _ => None,
        }
    }

    /// Reads a language from a document, where the document holds one.
    pub fn from_json(doc: &Value) -> (language: Option<Language>)
        ensures
            viewed(language) == Self::shape(contents(*doc)),
    {
        let code = text_member(doc, "code");
        let name = text_member(doc, "name");
        let native_name = text_member(doc, "nativeName");
        match (code, name, native_name) {
            (Some(code), Some(name), Some(native_name)) => Some(
                Language { code, name, native_name },
            ),
            _ => None,
        }
    }

    /// The language as `name (code)`.
    pub fn to_string(&self) -> (text: String)
        ensures
            text@ == self@.text(),
    {
        let mut text = self.name.clone();
        text.append(" (");
        text.append(self.code.as_str());
        text.append(")");
        text
    }
}

/// The languages of the service, in the order in which it lists them.
#[derive(Debug)]
pub struct AvailableLanguages {
    pub languages: Vec<Language>,
}

pub struct AvailableLanguagesView {
    pub languages: Seq<LanguageView>,
}

impl AvailableLanguagesView {
    /// The languages, each as `name (code)`, with a comma between neighbours.
    pub open spec fn text(self) -> Seq<char> {
        joined(self.languages.map_values(|language: LanguageView| language.text()), ","@)
    }
}

impl View for AvailableLanguages {
    type V = AvailableLanguagesView;

    open spec fn view(&self) -> AvailableLanguagesView {
        AvailableLanguagesView {
            languages: self.languages@.map_values(|language: Language| language@),
        }
    }
}

impl AvailableLanguages {
    /// Whether every one of `docs` holds a language.
    pub open spec fn all_fit(docs: Seq<JsonView>) -> bool {
        forall|i: int| 0 <= i < docs.len() ==> (#[trigger] Language::shape(docs[i])) is Some
    }

    /// The languages that `docs` hold, in order.
    pub open spec fn all_read(docs: Seq<JsonView>) -> Seq<LanguageView> {
        docs.map_values(|doc: JsonView| Language::shape(doc)->Some_0)
    }

    /// The list as its languages, each as `name (code)`, joined by commas.
    pub fn to_string(&self) -> (text: String)
        ensures
            text@ == self@.text(),
    {
        let mut parts: Vec<String> = Vec::new();
        let mut i: usize = 0;
        while i < self.languages.len()
            invariant
                i <= self.languages.len(),
                parts@.len() == i,
                forall|j: int| 0 <= j < i ==> (#[trigger] parts@[j])@ == self.languages@[j]@.text(),
            decreases self.languages.len() - i,
        {
            let part = self.languages[i].to_string();
            parts.push(part);
            i = i + 1;
        }
        proof {
            assert(crate::text::texts(parts@) =~= self@.languages.map_values(
                |language: LanguageView| language.text(),
            ));
        }
        join(&parts, ",")
    }
}

impl Payload for AvailableLanguages {
    /// The list that a document holds: an object whose member `languages` is
    /// an array of languages.
    open spec fn shape(doc: JsonView) -> Option<AvailableLanguagesView> {
        match doc.member("languages"@) {
            Some(JsonView::Array(docs)) => if Self::all_fit(docs) {
                Some(AvailableLanguagesView { languages: Self::all_read(docs) })
            } else {
                None
            },
            _ => None,
        }
    }

    fn from_json(doc: &Value) -> (list: Option<AvailableLanguages>) {
        let docs = match member(doc, "languages") {
            Some(inner) => match inner.as_array() {
                Some(docs) => docs,
                None => { return None; },
            },
            None => { return None; },
        };
        let ghost held = crate::json::all_contents(docs@);
        let mut languages: Vec<Language> = Vec::new();
        let mut i: usize = 0;
        while i < docs.len()
            invariant
                i <= docs.len(),
                held == crate::json::all_contents(docs@),
                contents(*doc).member("languages"@) == Some(JsonView::Array(held)),
                languages@.len() == i,
                forall|j: int|
                    0 <= j < i ==> (#[trigger] Language::shape(held[j])) == Some(languages@[j]@),
            decreases docs.len() - i,
        {
            match Language::from_json(&docs[i]) {
                Some(language) => {
                    languages.push(language);
                },
                None => {
                    proof {
                        assert(Language::shape(held[i as int]) is None);
                    }
                    return None;
                },
            }
            i = i + 1;
        }
        proof {
            assert(Self::all_fit(held));
            assert(languages@.map_values(|language: Language| language@) =~= Self::all_read(held));
        }
        Some(AvailableLanguages { languages })
    }
}

} // verus!
