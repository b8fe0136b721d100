use crate::error::Error;
use crate::subtitle::format::SubtitleFormat;
use crate::subtitle::handling::SubtitleHandling;
use crate::subtitle::utf8::{crlf_in_utf8, has_crlf_bytes, without_cr_bytes, without_cr_in_utf8};
use crate::text::{chars_of, push_char, text_of};
use crate::utils::file_stem_of;
use vstd::prelude::*;
use vstd::string::StringExecFns;
use vstd::utf8::{decode_utf8, encode_utf8, valid_utf8};

verus! {

/// The encodings, other than UTF-8, that a subtitle file may be in.
#[derive(Debug, Clone, Copy, PartialEq, Eq, Structural)]
pub enum Encoding {
    /// windows-1252, the Western encoding of Windows.
    Windows1252,
    /// ISO-8859-15, also known as Latin 9.
    Iso885915,
}

/// What `encoding_rs` decodes `bytes` to under `encoding`, taking the bytes
/// as the whole input, with no byte order mark looked for; `None` where a
/// sequence of the bytes is malformed under that encoding.
pub uninterp spec fn decoded_as(encoding: Encoding, bytes: Seq<u8>) -> Option<Seq<char>>;

/// Whether a decoder can be given `len` bytes at once: the room for the
/// decoded text, three bytes for each byte read, must fit in `usize`.
pub open spec fn decodable_len(len: nat) -> bool {
    len * 3 <= usize::MAX
}

/// Whether a file that holds `bytes` can be read here: any file that is
/// UTF-8 can, and one that is not where a decoder can be given its bytes.
pub open spec fn readable(bytes: Seq<u8>) -> bool {
    valid_utf8(bytes) || decodable_len(bytes.len())
}

/// Calls `std::str::from_utf8`, which accepts exactly the byte strings that
/// are well-formed UTF-8, and whose text is then spelled by those very bytes.
#[verifier::external_body]
fn utf8_text(bytes: &[u8]) -> (text: Option<String>)
    ensures
        text is Some <==> valid_utf8(bytes@),
        text matches Some(text) ==> encode_utf8(text@) == bytes@,
{
    match std::str::from_utf8(bytes) {
        Ok(text) => Some(text.to_owned()),
        Err(_) => None,
    }
}

/// Calls `decode_without_bom_handling_and_without_replacement` on the
/// `encoding_rs` encoding that `encoding` stands for. Only that the result
/// depends on the encoding and the bytes alone is taken on trust. The outside
/// function panics where the room for the text overflows `usize`, which
/// `decodable_len` rules out.
#[verifier::external_body]
fn legacy_text(encoding: Encoding, bytes: &[u8]) -> (text: Option<String>)
    requires
        decodable_len(bytes@.len()),
    ensures
        text_of(text) == decoded_as(encoding, bytes@),
{
    let decoder = match encoding {
        Encoding::Windows1252 => encoding_rs::WINDOWS_1252,
        Encoding::Iso885915 => encoding_rs::ISO_8859_15,
    };
    match decoder.decode_without_bom_handling_and_without_replacement(bytes) {
        Some(text) => Some(text.into_owned()),
        None => None,
    }
}

/// What `bytes` says, read strictly as UTF-8 where `encoding` is `None` and
/// under that encoding otherwise; `None` where the bytes are not well formed.
pub open spec fn text_under(bytes: Seq<u8>, encoding: Option<Encoding>) -> Option<Seq<char>> {
    match encoding {
        None => if valid_utf8(bytes) {
            Some(decode_utf8(bytes))
        } else {
            None
        },
        Some(encoding) => decoded_as(encoding, bytes),
    }
}

/// Decodes the whole of `contents`, strictly as UTF-8 where `encoding` is
/// `None`. Bytes that are malformed under the encoding give
/// `EncodingDetectionFailure`: nothing is replaced or skipped.
pub fn read_file(contents: &[u8], encoding: Option<Encoding>) -> (text: Result<String, Error>)
    requires
        encoding is Some ==> decodable_len(contents@.len()),
    ensures
        match text {
            Ok(text) => text_under(contents@, encoding) == Some(text@),
            Err(error) => error == Error::EncodingDetectionFailure && text_under(
                contents@,
                encoding,
            ) is None,
        },
{
    let decoded = match encoding {
        None => {
            let text = utf8_text(contents);
            proof {
                if text is Some {
                    vstd::utf8::encode_utf8_decode_utf8(text->0@);
                }
            }
            text
        },
        Some(encoding) => legacy_text(encoding, contents),
    };
    match decoded {
        Some(text) => Ok(text),
        None => Err(Error::EncodingDetectionFailure),
    }
}

/// What the first of `encoders` that decodes `bytes` makes of them; `None`
/// where none of them does.
pub open spec fn first_decoded(bytes: Seq<u8>, encoders: Seq<Encoding>) -> Option<Seq<char>>
    decreases encoders.len(),
{
    if encoders.len() == 0 {
        None
    } else {
        match decoded_as(encoders[0], bytes) {
            Some(text) => Some(text),
            None => first_decoded(bytes, encoders.drop_first()),
        }
    }
}

/// What `encoders` holds, where there is a list.
pub open spec fn encoders_of(encoders: Option<Vec<Encoding>>) -> Option<Seq<Encoding>> {
    match encoders {
        Some(encoders) => Some(encoders@),
        None => None,
    }
}

/// The text of a file that holds `bytes`, and whether a fallback encoding
/// was needed to read it. UTF-8 comes first: the fallbacks are tried only on
/// bytes that are not UTF-8.
pub open spec fn file_buffer(bytes: Seq<u8>, encoders: Option<Seq<Encoding>>) -> Result<
    (Seq<char>, bool),
    Error,
> {
    if valid_utf8(bytes) {
        Ok((decode_utf8(bytes), false))
    } else {
        match encoders {
            Some(encoders) => match first_decoded(bytes, encoders) {
                Some(text) => Ok((text, true)),
                None => Err(Error::EncodingDetectionFailure),
            },
            None => Err(Error::EncodingDetectionFailure),
        }
    }
}

/// Reads `contents` as UTF-8 or, failing that, under the first of
/// `preferred_encoders` that decodes all of it. The flag says whether a
/// fallback was used. Bytes that nothing decodes give
/// `EncodingDetectionFailure`.
pub fn get_file_buffer(contents: &[u8], preferred_encoders: Option<Vec<Encoding>>) -> (buffer:
    Result<(String, bool), Error>)
    requires
        readable(contents@),
    ensures
        match buffer {
            Ok((text, used_fallback)) => file_buffer(contents@, encoders_of(preferred_encoders))
                == Ok::<_, Error>((text@, used_fallback)),
            Err(error) => file_buffer(contents@, encoders_of(preferred_encoders)) == Err::<
                (Seq<char>, bool),
                _,
            >(error),
        },
{
    if let Ok(text) = read_file(contents, None) {
        return Ok((text, false));
    }
    let encoders = match preferred_encoders {
        Some(encoders) => encoders,
        None => {
            return Err(Error::EncodingDetectionFailure);
        },
    };
    let mut i: usize = 0;
    assert(encoders@.skip(0) =~= encoders@);
    while i < encoders.len()
        invariant
            i <= encoders.len(),
            decodable_len(contents@.len()),
            !valid_utf8(contents@),
            encoders_of(preferred_encoders) == Some(encoders@),
            first_decoded(contents@, encoders@) == first_decoded(contents@, encoders@.skip(i as int)),
        decreases encoders.len() - i,
    {
        assert(encoders@.skip(i as int).drop_first() =~= encoders@.skip(i + 1));
        if let Ok(text) = read_file(contents, Some(encoders[i])) {
            return Ok((text, true));
        }
        i += 1;
    }
    Err(Error::EncodingDetectionFailure)
}

/// Whether a carriage return stands at `i` in `text`, with a line feed right
/// after it.
pub open spec fn crlf_at(text: Seq<char>, i: int) -> bool {
    0 <= i && i + 1 < text.len() && text[i] == '\r' && text[i + 1] == '\n'
}

/// Whether `text` holds a line that ends the DOS way, in CR LF.
pub open spec fn has_crlf(text: Seq<char>) -> bool {
    exists|i: int| crlf_at(text, i)
}

/// Holds of every character but the carriage return.
pub open spec fn not_cr() -> spec_fn(char) -> bool {
    |c: char| c != '\r'
}

/// `text` without its carriage returns: every one of them goes, not only
/// those before a line feed.
pub open spec fn without_cr(text: Seq<char>) -> Seq<char> {
    text.filter(not_cr())
}

/// Whether `buffer` holds a line that ends in CR LF.
pub fn has_dos_line_endings(buffer: &str) -> (found: bool)
    ensures
        found == has_crlf(buffer@),
{
    let chars = chars_of(buffer);
    if chars.len() < 2 {
        return false;
    }
    let mut i: usize = 0;
    while i < chars.len() - 1
        invariant
            chars@ == buffer@,
            chars.len() >= 2,
            forall|j: int| 0 <= j < i ==> !crlf_at(buffer@, j),
        decreases chars.len() - i,
    {
        if chars[i] == '\r' && chars[i + 1] == '\n' {
            assert(crlf_at(buffer@, i as int));
            return true;
        }
        i += 1;
    }
    false
}

/// `buffer` with every carriage return taken out, which leaves its lines
/// ending in LF alone.
pub fn dos_to_unix_line_endings(buffer: &str) -> (text: String)
    ensures
        text@ == without_cr(buffer@),
{
    let chars = chars_of(buffer);
    let mut text = String::new();
    let mut i: usize = 0;
    proof {
        reveal(Seq::filter);
        assert(chars@.take(0) =~= seq![]);
    }
    while i < chars.len()
        invariant
            i <= chars.len(),
            text@ == without_cr(chars@.take(i as int)),
        decreases chars.len() - i,
    {
        proof {
            reveal(Seq::filter);
            assert(chars@.take(i + 1).drop_last() =~= chars@.take(i as int));
        }
        if chars[i] != '\r' {
            push_char(&mut text, chars[i]);
        }
        i += 1;
    }
    assert(chars@.take(i as int) =~= chars@);
    text
}

/// A subtitle file as the merge tool can take it.
#[derive(Debug)]
pub struct Utf8File {
    /// The path to hand to the merge tool.
    pub file_name: String,
    /// Whether `contents` is not what the file that was read holds byte for
    /// byte, and so has to be written to `file_name` first.
    pub is_transformed: bool,
    /// The text of the file at `file_name`, in UTF-8 and without carriage
    /// returns where it was transformed.
    pub contents: String,
}

/// What a `Utf8File` holds.
pub struct Utf8Text {
    pub file_name: Seq<char>,
    pub is_transformed: bool,
    pub contents: Seq<char>,
}

impl View for Utf8File {
    type V = Utf8Text;

    open spec fn view(&self) -> Utf8Text {
        Utf8Text {
            file_name: self.file_name@,
            is_transformed: self.is_transformed,
            contents: self.contents@,
        }
    }
}

/// The normal form of the subtitle file at `file` that holds `bytes`. A file
/// that is UTF-8 and has no line ending in CR LF is in normal form as it
/// stands. Any other is transformed: decoded, stripped of its carriage
/// returns where a line ends in CR LF, and written where `handling` says.
pub open spec fn normalized(
    file: Seq<char>,
    bytes: Seq<u8>,
    format: SubtitleFormat,
    encoders: Option<Seq<Encoding>>,
    handling: SubtitleHandling,
) -> Result<Utf8Text, Error> {
    match file_buffer(bytes, encoders) {
        Err(error) => Err(error),
        Ok((text, used_fallback)) => if !used_fallback && !has_crlf(text) {
            Ok(Utf8Text { file_name: file, is_transformed: false, contents: text })
        } else {
            match handling.file_name_for(file, format.extension()) {
                Err(error) => Err(error),
                Ok(file_name) => Ok(
                    Utf8Text {
                        file_name,
                        is_transformed: true,
                        contents: if has_crlf(text) {
                            without_cr(text)
                        } else {
                            text
                        },
                    },
                ),
            }
        },
    }
}

/// Brings the subtitle file at `file`, whose bytes are `contents`, into
/// normal form: UTF-8 with Unix line endings. Nothing is written here: where
/// the answer says `is_transformed`, its `contents` are to be written to its
/// `file_name` before that file is used.
pub fn get_file_with_utf8_encoding(
    file: &str,
    contents: &[u8],
    format: &SubtitleFormat,
    preferred_encoders: Option<Vec<Encoding>>,
    handling: &SubtitleHandling,
) -> (utf8_file: Result<Utf8File, Error>)
    requires
        readable(contents@),
    ensures
        match utf8_file {
            Ok(utf8_file) => normalized(
                file@,
                contents@,
                *format,
                encoders_of(preferred_encoders),
                *handling,
            ) == Ok::<_, Error>(utf8_file@),
            Err(error) => normalized(
                file@,
                contents@,
                *format,
                encoders_of(preferred_encoders),
                *handling,
            ) == Err::<Utf8Text, _>(error),
        },
{
    let (file_buffer, is_transformed) = match get_file_buffer(contents, preferred_encoders) {
        Ok(buffer) => buffer,
        Err(error) => {
            return Err(error);
        },
    };
    let has_dos_line_endings = has_dos_line_endings(file_buffer.as_str());

    if !is_transformed && !has_dos_line_endings {
        return Ok(
            Utf8File { file_name: String::from_str(file), is_transformed: false, contents: file_buffer },
        );
    }
    let decoded_buffer = if has_dos_line_endings {
        dos_to_unix_line_endings(file_buffer.as_str())
    } else {
        file_buffer
    };
    let extension = format.to_extension();
    match handling.get_file_name(file, extension.as_str()) {
        Ok(file_name) => Ok(Utf8File { file_name, is_transformed: true, contents: decoded_buffer }),
        Err(error) => Err(error),
    }
}

/// Whether one of `encoders` decodes `bytes`.
pub open spec fn decodes_under_one(bytes: Seq<u8>, encoders: Option<Seq<Encoding>>) -> bool {
    match encoders {
        Some(encoders) => exists|k: int|
            0 <= k < encoders.len() && decoded_as(#[trigger] encoders[k], bytes) is Some,
        None => false,
    }
}

proof fn first_decoded_is_some(bytes: Seq<u8>, encoders: Seq<Encoding>)
    ensures
        first_decoded(bytes, encoders) is Some <==> decodes_under_one(bytes, Some(encoders)),
    decreases encoders.len(),
{
    if encoders.len() > 0 {
        let rest = encoders.drop_first();
        first_decoded_is_some(bytes, rest);
        if decodes_under_one(bytes, Some(rest)) {
            let k = choose|k: int|
                0 <= k < rest.len() && decoded_as(#[trigger] rest[k], bytes) is Some;
            assert(decoded_as(encoders[k + 1], bytes) is Some);
        }
        if decodes_under_one(bytes, Some(encoders)) && decoded_as(encoders[0], bytes) is None {
            let k = choose|k: int|
                0 <= k < encoders.len() && decoded_as(#[trigger] encoders[k], bytes) is Some;
            assert(decoded_as(rest[k - 1], bytes) is Some);
        }
    }
}

/// A file that is UTF-8 and holds no CR LF is left as it is: the answer
/// names the file itself, and nothing is to be written.
pub proof fn canonical_file_is_kept(
    file: Seq<char>,
    bytes: Seq<u8>,
    format: SubtitleFormat,
    encoders: Option<Seq<Encoding>>,
    handling: SubtitleHandling,
)
    requires
        valid_utf8(bytes),
        !has_crlf_bytes(bytes),
    ensures
        normalized(file, bytes, format, encoders, handling) == Ok::<_, Error>(
            Utf8Text { file_name: file, is_transformed: false, contents: decode_utf8(bytes) },
        ),
{
    vstd::utf8::decode_utf8_encode_utf8(bytes);
    crlf_in_utf8(decode_utf8(bytes));
}

/// A file that is UTF-8 and holds CR LF is transformed, and what is to be
/// written is, byte for byte, the file without its bytes 13: no carriage
/// return is left. Nothing is to be written only where the path has no file
/// name to make a new path from.
pub proof fn carriage_returns_are_removed(
    file: Seq<char>,
    bytes: Seq<u8>,
    format: SubtitleFormat,
    encoders: Option<Seq<Encoding>>,
    handling: SubtitleHandling,
)
    requires
        valid_utf8(bytes),
        has_crlf_bytes(bytes),
    ensures
        match normalized(file, bytes, format, encoders, handling) {
            Ok(utf8_file) => {
                &&& utf8_file.is_transformed
                &&& handling.file_name_for(file, format.extension()) == Ok::<_, Error>(
                    utf8_file.file_name,
                )
                &&& encode_utf8(utf8_file.contents) == without_cr_bytes(bytes)
                &&& !encode_utf8(utf8_file.contents).contains(13u8)
            },
            Err(error) => handling.file_name_for(file, format.extension()) == Err::<Seq<char>, _>(
                error,
            ),
        },
{
    vstd::utf8::decode_utf8_encode_utf8(bytes);
    crlf_in_utf8(decode_utf8(bytes));
    without_cr_in_utf8(decode_utf8(bytes));
}

/// A file that is not UTF-8 but that one of the fallback encodings decodes
/// is transformed, and what is to be written is UTF-8, for every path that
/// has a file name.
pub proof fn fallback_encoding_gives_utf8(
    file: Seq<char>,
    bytes: Seq<u8>,
    format: SubtitleFormat,
    encoders: Option<Seq<Encoding>>,
    handling: SubtitleHandling,
)
    requires
        !valid_utf8(bytes),
        decodes_under_one(bytes, encoders),
        file_stem_of(file) is Some,
    ensures
        normalized(file, bytes, format, encoders, handling) matches Ok(utf8_file)
            && utf8_file.is_transformed && valid_utf8(encode_utf8(utf8_file.contents)),
{
    first_decoded_is_some(bytes, encoders->0);
    let utf8_file = normalized(file, bytes, format, encoders, handling)->Ok_0;
    vstd::utf8::encode_utf8_valid_utf8(utf8_file.contents);
}

proof fn first_decoded_at(bytes: Seq<u8>, encoders: Seq<Encoding>, k: int)
    requires
        0 <= k < encoders.len(),
        decoded_as(encoders[k], bytes) is Some,
        forall|j: int| 0 <= j < k ==> decoded_as(#[trigger] encoders[j], bytes) is None,
    ensures
        first_decoded(bytes, encoders) == decoded_as(encoders[k], bytes),
    decreases k,
{
    if k > 0 {
        let rest = encoders.drop_first();
        assert(decoded_as(encoders[0], bytes) is None);
        assert forall|j: int| 0 <= j < k - 1 implies decoded_as(#[trigger] rest[j], bytes) is None by {
            assert(decoded_as(encoders[j + 1], bytes) is None);
        }
        first_decoded_at(bytes, rest, k - 1);
    }
}

/// A file that is not UTF-8 is read under the first of the fallback
/// encodings that decodes it, and under no later one. What is to be written
/// is that decoding, without its carriage returns where it holds CR LF, at
/// the path that the handling policy gives; only a path without a file name
/// stands in the way.
pub proof fn first_fallback_is_used(
    file: Seq<char>,
    bytes: Seq<u8>,
    format: SubtitleFormat,
    encoders: Seq<Encoding>,
    handling: SubtitleHandling,
    k: int,
)
    requires
        !valid_utf8(bytes),
        0 <= k < encoders.len(),
        decoded_as(encoders[k], bytes) is Some,
        forall|j: int| 0 <= j < k ==> decoded_as(#[trigger] encoders[j], bytes) is None,
    ensures
        normalized(file, bytes, format, Some(encoders), handling) == (match handling.file_name_for(
            file,
            format.extension(),
        ) {
            Ok(file_name) => Ok(
                Utf8Text {
                    file_name,
                    is_transformed: true,
                    contents: if has_crlf(decoded_as(encoders[k], bytes)->0) {
                        without_cr(decoded_as(encoders[k], bytes)->0)
                    } else {
                        decoded_as(encoders[k], bytes)->0
                    },
                },
            ),
            Err(error) => Err(error),
        }),
{
    first_decoded_at(bytes, encoders, k);
}

/// A file that is not UTF-8 and that none of the fallback encodings decodes,
/// or for which there is none, is refused with `EncodingDetectionFailure`.
pub proof fn no_encoding_gives_failure(
    file: Seq<char>,
    bytes: Seq<u8>,
    format: SubtitleFormat,
    encoders: Option<Seq<Encoding>>,
    handling: SubtitleHandling,
)
    requires
        !valid_utf8(bytes),
        !decodes_under_one(bytes, encoders),
    ensures
        normalized(file, bytes, format, encoders, handling) == Err::<Utf8Text, _>(
            Error::EncodingDetectionFailure,
        ),
{
    if encoders is Some {
        first_decoded_is_some(bytes, encoders->0);
    }
}

} // verus!
