use crate::error::Error;
use crate::text::{join, text_or_error};
use crate::utils::{file_stem_of, get_file_stem, path_with_file_name, with_file_name_of};
use vstd::prelude::*;
use vstd::string::StringExecFns;

verus! {

/// What becomes of the copy that is written when a subtitle file has to be
/// converted.
#[derive(Debug, Clone, Copy, PartialEq, Eq, Structural)]
pub enum SubtitleHandling {
    /// The copy stays, and so does the file that was read.
    Keep,
    /// The converted text is written over the file that was read.
    Replace,
    /// The copy is deleted once the merge is over.
    Remove,
}

impl Default for SubtitleHandling {
    fn default() -> (handling: SubtitleHandling)
        ensures
            handling == SubtitleHandling::Remove,
    {
        SubtitleHandling::Remove
    }
}

impl SubtitleHandling {
    /// Where the converted text of `file` is written: over `file` itself
    /// under `Replace`, else to the file `{stem}-fixed.{extension}` in the
    /// directory of `file`. A path without a file name has no such place
    /// under any policy.
    pub open spec fn file_name_for(self, file: Seq<char>, extension: Seq<char>) -> Result<
        Seq<char>,
        Error,
    > {
        match file_stem_of(file) {
            None => Err(Error::NotAFile),
            Some(stem) => match self {
                SubtitleHandling::Replace => Ok(file),
                _ => Ok(with_file_name_of(file, stem + "-fixed."@ + extension)),
            },
        }
    }

    /// The word that selects this policy.
    pub open spec fn name(self) -> Seq<char> {
        match self {
            SubtitleHandling::Keep => "keep"@,
            SubtitleHandling::Replace => "replace"@,
            SubtitleHandling::Remove => "remove"@,
        }
    }

    /// The path to write the converted text of `file` to.
    pub fn get_file_name(&self, file: &str, extension: &str) -> (file_name: Result<String, Error>)
        ensures
            text_or_error(file_name) == self.file_name_for(file@, extension@),
    {
        let stem = match get_file_stem(file) {
            Ok(stem) => stem,
            Err(error) => {
                return Err(error);
            },
        };
        match self {
            SubtitleHandling::Replace => Ok(String::from_str(file)),
            _ => {
                let file_name = join(stem.as_str(), "-fixed.").concat(extension);
                Ok(path_with_file_name(file, file_name.as_str()))
            },
        }
    }

    /// Whether a copy written under this policy is deleted after the merge.
    pub fn should_remove_file(&self) -> (remove: bool)
        ensures
            remove == (*self == SubtitleHandling::Remove),
    {
        match self {
            SubtitleHandling::Remove => true,
            _ => false,
        }
    }

    /// The word that selects this policy.
    pub fn to_string(&self) -> (name: String)
        ensures
            name@ == self.name(),
    {
        match self {
            SubtitleHandling::Keep => String::from_str("keep"),
            SubtitleHandling::Replace => String::from_str("replace"),
            SubtitleHandling::Remove => String::from_str("remove"),
        }
    }
}

} // verus!
