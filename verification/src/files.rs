//! Uploaded files: their type, their text, and the encoding of text that
//! is not UTF-8.
use vstd::prelude::*;

use crate::json::{JsonModel, JsonNumber, JsonValue, json_model};
use crate::strs::{contains, decimal, decimal_string, owned, push_str, str_contains, str_eq, utf8_bytes};
use vstd::string::StringSliceAdditionalSpecFns;

verus! {

broadcast use vstd::string::group_string_axioms;

/// The kinds of file the library can read.
#[derive(Debug, Clone, Copy, PartialEq, Eq, Structural)]
pub enum FileType {
    Pdf,
    Text,
}

/// `s` ends with `suffix`.
pub open spec fn ends_with(s: Seq<char>, suffix: Seq<char>) -> bool {
    suffix.len() <= s.len() && s.skip(s.len() - suffix.len()) == suffix
}

fn str_ends_with(s: &str, suffix: &str) -> (r: bool)
    ensures
        r == ends_with(s@, suffix@),
{
    let v = crate::strs::chars_of(s);
    let p = crate::strs::chars_of(suffix);
    if p.len() > v.len() {
        return false;
    }
    let n = v.len();
    let start = n - p.len();
    let mut i: usize = 0;
    while i < p.len()
        invariant
            n == v@.len(),
            start + p@.len() == n,
            i <= p@.len(),
            v@ == s@,
            p@ == suffix@,
            forall|j: int| 0 <= j < i ==> v@[start + j] == p@[j],
        decreases p.len() - i,
    {
        if v[start + i] != p[i] {
            assert(v@.skip(start as int)[i as int] != p@[i as int]);
            return false;
        }
        i = i + 1;
    }
    assert(v@.skip(start as int) =~= p@);
    true
}

/// The type of an uploaded file: by its content type where that names
/// PDF or text (or Markdown); else PDF for a `.pdf` name, text otherwise.
pub open spec fn file_type_of(content_type: Option<Seq<char>>, filename: Seq<char>) -> FileType {
    match content_type {
        Some(ct) if contains(ct, "pdf"@) => FileType::Pdf,
        Some(ct) if contains(ct, "text"@) || contains(ct, "markdown"@) => FileType::Text,
        _ => if ends_with(filename, ".pdf"@) {
            FileType::Pdf
        } else {
            FileType::Text
        },
    }
}

/// The type of an uploaded file, from its content type and name.
pub fn detect_file_type(content_type: Option<&str>, filename: &str) -> (r: FileType)
    ensures
        r == file_type_of(
            match content_type {
                Some(c) => Some(c@),
                None => None,
            },
            filename@,
        ),
{
    if let Some(ct) = content_type {
        if str_contains(ct, "pdf") {
            return FileType::Pdf;
        }
        if str_contains(ct, "text") || str_contains(ct, "markdown") {
            return FileType::Text;
        }
    }
    if str_ends_with(filename, ".pdf") {
        FileType::Pdf
    } else {
        FileType::Text
    }
}

/// The text of valid UTF-8 bytes (`std::str::from_utf8`), which the
/// standard library documents as succeeding exactly on valid UTF-8, with
/// the characters the bytes encode.
#[verifier::external_body]
fn utf8_text(bytes: &[u8]) -> (r: Option<String>)
    ensures
        match r {
            Some(s) => vstd::utf8::valid_utf8(bytes@) && s@ == vstd::utf8::decode_utf8(bytes@),
            None => !vstd::utf8::valid_utf8(bytes@),
        },
{
    match std::str::from_utf8(bytes) {
        Ok(s) => Some(s.to_string()),
        Err(_) => None,
    }
}

/// The text `String::from_utf8_lossy` makes of some bytes.
pub uninterp spec fn lossy_text(bytes: Seq<u8>) -> Seq<char>;

/// Decodes bytes as UTF-8 with invalid sequences replaced by U+FFFD
/// (`String::from_utf8_lossy`). The text is named, not described.
#[verifier::external_body]
fn utf8_lossy(bytes: &[u8]) -> (r: String)
    ensures
        r@ == lossy_text(bytes@),
{
    String::from_utf8_lossy(bytes).to_string()
}

/// The name of the encoding that chardetng guesses for some bytes.
pub uninterp spec fn detected_encoding(bytes: Seq<u8>) -> Seq<char>;

/// The name of the encoding chardetng guesses for `bytes`
/// (`EncodingDetector::new`, `feed` with the bytes as not the last,
/// `guess` with no top-level domain and UTF-8 allowed, `Encoding::name`).
/// The name is named, not described.
#[verifier::external_body]
pub fn detect_encoding(bytes: &[u8]) -> (r: &'static str)
    ensures
        r@ == detected_encoding(bytes@),
{
    let mut detector = chardetng::EncodingDetector::new();
    detector.feed(bytes, false);
    detector.guess(None, true).name()
}

/// The encodings the library decodes with.
#[derive(Debug, Clone, Copy, PartialEq, Eq, Structural)]
pub enum TextEncoding {
    Utf8,
    Windows1252,
    ShiftJis,
    EucJp,
    Gbk,
    Big5,
    EucKr,
    Utf16Le,
    Utf16Be,
    Gb18030,
}

/// `c` in ASCII lower case.
pub open spec fn ascii_lower(c: char) -> char {
    if 'A' <= c && c <= 'Z' {
        ((c as u32) + 32) as char
    } else {
        c
    }
}

/// `s` in ASCII lower case (`str::to_ascii_lowercase`).
pub open spec fn ascii_lowercase(s: Seq<char>) -> Seq<char> {
    Seq::new(s.len(), |i: int| ascii_lower(s[i]))
}

/// The encoding that an encoding name (in any ASCII case) stands for;
/// UTF-8 for names it does not know. ISO-8859-1 is read as its superset
/// windows-1252.
pub open spec fn encoding_for(name: Seq<char>) -> TextEncoding {
    let n = ascii_lowercase(name);
    if n == "utf-8"@ || n == "utf8"@ {
        TextEncoding::Utf8
    } else if n == "windows-1252"@ || n == "cp1252"@ || n == "iso-8859-1"@ || n == "latin1"@ {
        TextEncoding::Windows1252
    } else if n == "shift_jis"@ || n == "sjis"@ {
        TextEncoding::ShiftJis
    } else if n == "euc-jp"@ {
        TextEncoding::EucJp
    } else if n == "gbk"@ || n == "gb2312"@ {
        TextEncoding::Gbk
    } else if n == "big5"@ {
        TextEncoding::Big5
    } else if n == "euc-kr"@ {
        TextEncoding::EucKr
    } else if n == "utf-16le"@ {
        TextEncoding::Utf16Le
    } else if n == "utf-16be"@ {
        TextEncoding::Utf16Be
    } else if n == "gb18030"@ {
        TextEncoding::Gb18030
    } else {
        TextEncoding::Utf8
    }
}

fn to_ascii_lowercase(s: &str) -> (r: String)
    ensures
        r@ == ascii_lowercase(s@),
{
    let v = crate::strs::chars_of(s);
    let mut out = String::new();
    let mut i: usize = 0;
    while i < v.len()
        invariant
            i <= v@.len(),
            v@ == s@,
            out@ == ascii_lowercase(v@).take(i as int),
        decreases v.len() - i,
    {
        let c = v[i];
        let l = if 'A' <= c && c <= 'Z' {
            (((c as u32) + 32) as u8) as char
        } else {
            c
        };
        crate::strs::push_char(&mut out, l);
        assert(ascii_lowercase(v@).take(i + 1) =~= ascii_lowercase(v@).take(i as int).push(l));
        i = i + 1;
    }
    assert(ascii_lowercase(v@).take(i as int) =~= ascii_lowercase(v@));
    out
}

/// The encoding that an encoding name stands for.
pub fn encoding_name_to_encoding(name: &str) -> (r: TextEncoding)
    ensures
        r == encoding_for(name@),
{
    let lower = to_ascii_lowercase(name);
    let n = lower.as_str();
    if str_eq(n, "utf-8") || str_eq(n, "utf8") {
        TextEncoding::Utf8
    } else if str_eq(n, "windows-1252") || str_eq(n, "cp1252") || str_eq(n, "iso-8859-1") || str_eq(n, "latin1") {
        TextEncoding::Windows1252
    } else if str_eq(n, "shift_jis") || str_eq(n, "sjis") {
        TextEncoding::ShiftJis
    } else if str_eq(n, "euc-jp") {
        TextEncoding::EucJp
    } else if str_eq(n, "gbk") || str_eq(n, "gb2312") {
        TextEncoding::Gbk
    } else if str_eq(n, "big5") {
        TextEncoding::Big5
    } else if str_eq(n, "euc-kr") {
        TextEncoding::EucKr
    } else if str_eq(n, "utf-16le") {
        TextEncoding::Utf16Le
    } else if str_eq(n, "utf-16be") {
        TextEncoding::Utf16Be
    } else if str_eq(n, "gb18030") {
        TextEncoding::Gb18030
    } else {
        TextEncoding::Utf8
    }
}

/// The text that encoding_rs decodes from some bytes in an encoding.
pub uninterp spec fn decoded_text(encoding: TextEncoding, bytes: Seq<u8>) -> Seq<char>;

/// Decodes bytes with encoding_rs (`Encoding::decode`, which sniffs a
/// byte order mark first and replaces malformed sequences). The text is
/// named, not described.
#[verifier::external_body]
fn decode_as(encoding: TextEncoding, bytes: &[u8]) -> (r: String)
    ensures
        r@ == decoded_text(encoding, bytes@),
{
    let e = match encoding {
        TextEncoding::Utf8 => encoding_rs::UTF_8,
        TextEncoding::Windows1252 => encoding_rs::WINDOWS_1252,
        TextEncoding::ShiftJis => encoding_rs::SHIFT_JIS,
        TextEncoding::EucJp => encoding_rs::EUC_JP,
        TextEncoding::Gbk => encoding_rs::GBK,
        TextEncoding::Big5 => encoding_rs::BIG5,
        TextEncoding::EucKr => encoding_rs::EUC_KR,
        TextEncoding::Utf16Le => encoding_rs::UTF_16LE,
        TextEncoding::Utf16Be => encoding_rs::UTF_16BE,
        TextEncoding::Gb18030 => encoding_rs::GB18030,
    };
    e.decode(bytes).0.into_owned()
}

/// The text of some bytes: as UTF-8 where they are valid UTF-8; else
/// decoded in the encoding that chardetng guesses for them.
pub open spec fn fallback_text(bytes: Seq<u8>) -> Seq<char> {
    if vstd::utf8::valid_utf8(bytes) {
        vstd::utf8::decode_utf8(bytes)
    } else {
        decoded_text(encoding_for(detected_encoding(bytes)), bytes)
    }
}

/// Decodes bytes as UTF-8, or else in the encoding detected for them.
pub fn decode_with_fallback(bytes: &[u8]) -> (r: String)
    ensures
        r@ == fallback_text(bytes@),
{
    if let Some(s) = utf8_text(bytes) {
        return s;
    }
    let name = detect_encoding(bytes);
    let encoding = encoding_name_to_encoding(name);
    decode_as(encoding, bytes)
}

/// The text of a text file: its UTF-8 text; else, marked with the
/// detected encoding's name, its text with invalid sequences replaced.
pub open spec fn plain_text(bytes: Seq<u8>) -> Seq<char> {
    if vstd::utf8::valid_utf8(bytes) {
        vstd::utf8::decode_utf8(bytes)
    } else {
        "[Encoding: "@ + detected_encoding(bytes) + "]\n"@ + lossy_text(bytes)
    }
}

/// The text of a text file's bytes.
pub fn extract_plain_text(data: &[u8]) -> (r: String)
    ensures
        r@ == plain_text(data@),
{
    if let Some(s) = utf8_text(data) {
        return s;
    }
    let detected = detect_encoding(data);
    let mut out = owned("[Encoding: ");
    push_str(&mut out, detected);
    push_str(&mut out, "]\n");
    push_str(&mut out, utf8_lossy(data).as_str());
    out
}

/// The length in bytes of a text, as `str::len` gives it.
pub open spec fn byte_len(s: Seq<char>) -> u64 {
    (utf8_bytes(s).len() as usize) as u64
}

/// What an upload keeps of each file: its name, size and the length of
/// its text.
pub open spec fn upload_entry(filename: Seq<char>, size: u64, text: Seq<char>) -> JsonModel {
    JsonModel::Object(
        seq![
            ("filename"@, JsonModel::String(filename)),
            ("size"@, JsonModel::Number(JsonNumber::PosInt(size))),
            ("text_length"@, JsonModel::Number(JsonNumber::PosInt(byte_len(text)))),
        ],
    )
}

/// The files of an upload so far, and their texts together.
pub struct UploadSummary {
    pub files: Vec<JsonValue>,
    pub combined_text: String,
}

/// The separator after each file's text.
pub open spec fn file_separator() -> Seq<char> {
    "\n\n---\n\n"@
}

impl UploadSummary {
    /// No files yet.
    pub fn new() -> (r: Self)
        ensures
            r.files@.len() == 0,
            r.combined_text@ == Seq::<char>::empty(),
    {
        UploadSummary { files: Vec::new(), combined_text: String::new() }
    }

    /// Adds a file of `size` bytes, named `filename` (or "unknown"), whose
    /// text is `text`.
    pub fn add_file(&mut self, filename: Option<&str>, size: usize, text: &str)
        ensures
            final(self).combined_text@ == old(self).combined_text@ + text@ + file_separator(),
            final(self).files@.len() == old(self).files@.len() + 1,
            final(self).files@.take(old(self).files@.len() as int) == old(self).files@,
            json_model(final(self).files@.last()) == upload_entry(
                match filename {
                    Some(f) => f@,
                    None => "unknown"@,
                },
                size as u64,
                text@,
            ),
    {
        push_str(&mut self.combined_text, text);
        push_str(&mut self.combined_text, "\n\n---\n\n");
        let name = match filename {
            Some(f) => owned(f),
            None => owned("unknown"),
        };
        let a = (owned("filename"), JsonValue::String(name));
        let b = (owned("size"), JsonValue::Number(JsonNumber::PosInt(size as u64)));
        let c = (owned("text_length"), JsonValue::Number(JsonNumber::PosInt(text.len() as u64)));
        let ghost fv = a.1;
        let fields = vec![a, b, c];
        assert(fields@[0].0@ == "filename"@);
        assert(fields@[1].0@ == "size"@ && json_model(fields@[1].1) == JsonModel::Number(JsonNumber::PosInt(size as u64)));
        assert(fields@[2].0@ == "text_length"@ && json_model(fields@[2].1) == JsonModel::Number(JsonNumber::PosInt(byte_len(text@))));
        let o = JsonValue::Object(fields);
        proof {
            if let JsonModel::Object(x) = json_model(o) {
                assert(x =~= seq![
                    ("filename"@, json_model(fv)),
                    ("size"@, JsonModel::Number(JsonNumber::PosInt(size as u64))),
                    ("text_length"@, JsonModel::Number(JsonNumber::PosInt(byte_len(text@)))),
                ]);
            }
        }
        let ghost f0 = self.files@;
        self.files.push(o);
        assert(self.files@.take(f0.len() as int) =~= f0);
    }

    /// The upload's answer: the files, the length in bytes of their texts
    /// together and a message; "No files uploaded" where there are none.
    pub fn finish(self) -> (r: Result<JsonValue, String>)
        ensures
            self.files@.len() == 0 ==> (r matches Err(m) && m@ == "No files uploaded"@),
            self.files@.len() > 0 ==> (r matches Ok(j) && json_model(j) == JsonModel::Object(
                seq![
                    ("combined_text_length"@, JsonModel::Number(
                        JsonNumber::PosInt(byte_len(self.combined_text@)),
                    )),
                    ("files"@, JsonModel::Array(
                        Seq::new(self.files@.len(), |i: int| json_model(self.files@[i])),
                    )),
                    ("message"@, JsonModel::String(
                        "Successfully uploaded "@ + decimal(self.files@.len()) + " files"@,
                    )),
                ],
            )),
    {
        if self.files.len() == 0 {
            return Err(owned("No files uploaded"));
        }
        let ghost files = self.files@;
        let ghost combined = self.combined_text@;
        let n = self.files.len();
        let mut message = owned("Successfully uploaded ");
        push_str(&mut message, decimal_string(n as u64).as_str());
        push_str(&mut message, " files");
        let len = self.combined_text.as_str().len() as u64;
        let a = (owned("combined_text_length"), JsonValue::Number(JsonNumber::PosInt(len)));
        let arr = JsonValue::Array(self.files);
        let ghost am = json_model(arr);
        let b = (owned("files"), arr);
        let c = (owned("message"), JsonValue::String(message));
        let ghost mm = json_model(c.1);
        let fields = vec![a, b, c];
        assert(fields@[0].0@ == "combined_text_length"@ && json_model(fields@[0].1) == JsonModel::Number(JsonNumber::PosInt(byte_len(combined))));
        assert(fields@[1].0@ == "files"@ && json_model(fields@[1].1) == am);
        assert(fields@[2].0@ == "message"@ && json_model(fields@[2].1) == mm);
        let o = JsonValue::Object(fields);
        proof {
            if let JsonModel::Array(x) = am {
                assert(x =~= Seq::new(files.len(), |i: int| json_model(files[i])));
            }
            if let JsonModel::Object(x) = json_model(o) {
                assert(x =~= seq![
                    ("combined_text_length"@, JsonModel::Number(JsonNumber::PosInt(byte_len(combined)))),
                    ("files"@, am),
                    ("message"@, mm),
                ]);
            }
        }
        Ok(o)
    }
}

} // verus!
