use crate::error::Error;
use crate::subtitle::encoding::Encoding;
use crate::text::same_text;
use vstd::prelude::*;
use vstd::string::StringExecFns;

verus! {

/// What `str::to_lowercase` makes of `text`: its lowercase equivalent, as
/// Unicode defines lowercase.
pub uninterp spec fn lowercase_of(text: Seq<char>) -> Seq<char>;

/// Calls `str::to_lowercase`. Only that the result depends on the text alone
/// is taken on trust.
#[verifier::external_body]
fn to_lowercase(text: &str) -> (lower: String)
    ensures
        lower@ == lowercase_of(text@),
{
    text.to_lowercase()
}

/// The languages that a subtitle stream can be labelled with.
#[derive(Debug, Clone, Copy, PartialEq, Eq, Structural)]
pub enum Language {
    English,
    French,
    Spanish,
}

impl Language {
    /// The language whose name, in lowercase, is `name`.
    pub open spec fn named(name: Seq<char>) -> Option<Language> {
        if name == "spanish"@ {
            Some(Language::Spanish)
        } else if name == "english"@ {
            Some(Language::English)
        } else if name == "french"@ {
            Some(Language::French)
        } else {
            None
        }
    }

    /// The language that `name` stands for, whatever the case of its letters.
    pub open spec fn for_name(name: Seq<char>) -> Result<Language, Error> {
        match Self::named(lowercase_of(name)) {
            Some(language) => Ok(language),
            None => Err(Error::UnsupportedLanguage),
        }
    }

    /// The three-letter code that labels a stream of this language.
    pub open spec fn metadata_tag(self) -> Seq<char> {
        match self {
            Language::Spanish => "spa"@,
            Language::English => "eng"@,
            Language::French => "fre"@,
        }
    }

    /// The encodings to try, in this order, on a file in this language that
    /// is not UTF-8.
    pub open spec fn encoders(self) -> Option<Seq<Encoding>> {
        match self {
            Language::Spanish => Some(seq![Encoding::Windows1252, Encoding::Iso885915]),
            _ => None,
        }
    }

    /// Looks up a name that is in lowercase already. The match is exact.
    pub fn from_lowercase(name: &str) -> (language: Option<Language>)
        ensures
            language == Self::named(name@),
    {
        if same_text(name, "spanish") {
            Some(Language::Spanish)
        } else if same_text(name, "english") {
            Some(Language::English)
        } else if same_text(name, "french") {
            Some(Language::French)
        } else {
            None
        }
    }

    /// The language called `language`, in any mix of upper and lower case.
    /// Any other name is refused with `UnsupportedLanguage`.
    pub fn new(language: &str) -> (found: Result<Language, Error>)
        ensures
            found == Self::for_name(language@),
    {
        let lower = to_lowercase(language);
        match Self::from_lowercase(lower.as_str()) {
            Some(language) => Ok(language),
            None => Err(Error::UnsupportedLanguage),
        }
    }

    /// The three-letter code of this language.
    pub fn to_metadata_tag(&self) -> (tag: String)
        ensures
            tag@ == self.metadata_tag(),
    {
        match self {
            Language::Spanish => String::from_str("spa"),
            Language::English => String::from_str("eng"),
            Language::French => String::from_str("fre"),
        }
    }

    /// The encodings that files in this language were commonly written in
    /// before UTF-8, the likeliest first; `None` where none is known.
    pub fn preferred_encoders(&self) -> (encoders: Option<Vec<Encoding>>)
        ensures
            match encoders {
                Some(encoders) => self.encoders() == Some(encoders@),
                None => self.encoders() is None,
            },
    {
        match self {
            Language::Spanish => {
                let mut encoders: Vec<Encoding> = Vec::new();
                encoders.push(Encoding::Windows1252);
                encoders.push(Encoding::Iso885915);
                assert(encoders@ == seq![Encoding::Windows1252, Encoding::Iso885915]);
                Some(encoders)
            },
            _ => None,
        }
    }
}

} // verus!
