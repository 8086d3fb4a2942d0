//! Application configuration: its defaults, and the configuration read from
//! the values of environment variables.
use vstd::prelude::*;

use crate::error::ConfigError;
use crate::strs::{owned, split_char, split_from, views};

verus! {

/// Application configuration.
#[derive(Debug, Clone)]
pub struct AppConfig {
    /// Server host (default: 0.0.0.0).
    pub server_host: String,
    /// Server port (default: 5001).
    pub server_port: u16,
    /// Directory for files, projects, simulations and reports.
    pub upload_folder: String,
    pub llm_api_key: String,
    /// Base URL of the OpenAI-compatible LLM API.
    pub llm_base_url: String,
    pub llm_model_name: String,
    pub zep_api_key: String,
    pub zep_base_url: String,
    /// Default chunk size for text processing.
    pub default_chunk_size: usize,
    /// Default chunk overlap for text processing.
    pub default_chunk_overlap: usize,
    /// Largest upload, in bytes.
    pub max_upload_size: usize,
    /// File extensions allowed for upload.
    pub allowed_extensions: Vec<String>,
    /// Default language.
    pub default_language: String,
}

/// The default configuration.
pub open spec fn is_default_config(c: AppConfig) -> bool {
    &&& c.server_host@ == "0.0.0.0"@
    &&& c.server_port == 5001
    &&& c.upload_folder@ == "uploads"@
    &&& c.llm_api_key@ == Seq::<char>::empty()
    &&& c.llm_base_url@ == "https://dashscope.aliyuncs.com/compatible-mode/v1"@
    &&& c.llm_model_name@ == "qwen-plus"@
    &&& c.zep_api_key@ == Seq::<char>::empty()
    &&& c.zep_base_url@ == "https://api.getzep.com"@
    &&& c.default_chunk_size == 500
    &&& c.default_chunk_overlap == 50
    &&& c.max_upload_size == 50 * 1024 * 1024
    &&& views(c.allowed_extensions@) == seq!["pdf"@, "md"@, "txt"@]
    &&& c.default_language@ == "en"@
}

impl Default for AppConfig {
    fn default() -> (r: Self)
        ensures
            is_default_config(r),
    {
        let exts = vec![owned("pdf"), owned("md"), owned("txt")];
        assert(views(exts@) =~= seq!["pdf"@, "md"@, "txt"@]);
        AppConfig {
            server_host: owned("0.0.0.0"),
            server_port: 5001,
            upload_folder: owned("uploads"),
            llm_api_key: String::new(),
            llm_base_url: owned("https://dashscope.aliyuncs.com/compatible-mode/v1"),
            llm_model_name: owned("qwen-plus"),
            zep_api_key: String::new(),
            zep_base_url: owned("https://api.getzep.com"),
            default_chunk_size: 500,
            default_chunk_overlap: 50,
            max_upload_size: 50 * 1024 * 1024,
            allowed_extensions: exts,
            default_language: owned("en"),
        }
    }
}

/// The value of a decimal digit character.
pub open spec fn digit_value(c: char) -> int {
    (c as u32) - 48
}

/// `c` is an ASCII decimal digit.
pub open spec fn is_digit(c: char) -> bool {
    '0' <= c && c <= '9'
}

/// The number that a sequence of digits writes.
pub open spec fn digits_value(s: Seq<char>) -> int
    decreases s.len(),
{
    if s.len() == 0 {
        0
    } else {
        digits_value(s.drop_last()) * 10 + digit_value(s.last())
    }
}

/// The unsigned number that `s` writes as `str::parse` reads it: an
/// optional `+`, then one or more digits; `None` where that fails or the
/// number exceeds `max`.
pub open spec fn parsed_unsigned(s: Seq<char>, max: int) -> Option<int> {
    let d = unsigned_digits(s);
    if d.len() > 0 && all_digits(d) && digits_value(d) <= max {
        Some(digits_value(d))
    } else {
        None
    }
}

/// `s` without a leading `+`.
pub open spec fn unsigned_digits(s: Seq<char>) -> Seq<char> {
    if s.len() > 0 && s[0] == '+' {
        s.drop_first()
    } else {
        s
    }
}

/// Every character of `d` is a digit.
pub open spec fn all_digits(d: Seq<char>) -> bool {
    forall|i: int| 0 <= i < d.len() ==> is_digit(#[trigger] d[i])
}

pub proof fn lemma_digits_value_nonneg(s: Seq<char>)
    requires
        forall|i: int| 0 <= i < s.len() ==> is_digit(#[trigger] s[i]),
    ensures
        digits_value(s) >= 0,
        s.len() > 0 ==> digits_value(s) >= digits_value(s.drop_last()),
    decreases s.len(),
{
    if s.len() > 0 {
        lemma_digits_value_nonneg(s.drop_last());
    }
}

/// Reads an unsigned number no larger than `max` (`str::parse` for an
/// unsigned integer type whose largest value is `max`).
pub fn parse_unsigned(s: &str, max: u64) -> (r: Option<u64>)
    ensures
        match r {
            Some(n) => parsed_unsigned(s@, max as int) == Some(n as int),
            None => parsed_unsigned(s@, max as int) is None,
        },
{
    let v = crate::strs::chars_of(s);
    let start: usize = if v.len() > 0 && v[0] == '+' {
        1
    } else {
        0
    };
    let ghost d = unsigned_digits(s@);
    assert(d =~= v@.skip(start as int));
    if start >= v.len() {
        return None;
    }
    let mut value: u64 = 0;
    let mut i = start;
    while i < v.len()
        invariant
            start <= i <= v@.len(),
            v@ == s@,
            d == v@.skip(start as int),
            d == unsigned_digits(s@),
            forall|j: int| 0 <= j < i - start ==> is_digit(#[trigger] d[j]),
            value == digits_value(d.take(i - start)),
            value <= max,
        decreases v.len() - i,
    {
        let c = v[i];
        if !('0' <= c && c <= '9') {
            assert(!is_digit(d[i - start]));
            assert(!all_digits(d));
            assert(parsed_unsigned(s@, max as int) is None);
            return None;
        }
        let digit = (c as u32 - 48) as u64;
        assert(d.take(i + 1 - start).drop_last() =~= d.take(i - start));
        assert(d[i - start] == c);
        assert(digit as int == digit_value(c));
        if value > max / 10 || digit > max || value * 10 > max - digit {
            proof {
                assert(digits_value(d.take(i + 1 - start)) > max) by (nonlinear_arith)
                    requires
                        digits_value(d.take(i + 1 - start)) == value * 10 + digit,
                        value > max / 10 || digit > max || value * 10 > max - digit,
                        value <= max,
                        max >= 0,
                        digit >= 0;
                if all_digits(d) {
                    lemma_prefix_le(d, i + 1 - start);
                }
                assert(parsed_unsigned(s@, max as int) is None);
            }
            return None;
        }
        value = value * 10 + digit;
        i = i + 1;
    }
    assert(d.take(v@.len() - start) =~= d);
    assert(all_digits(d));
    Some(value)
}

/// A prefix of digits writes no larger a number than all of them.
proof fn lemma_prefix_le(d: Seq<char>, k: int)
    requires
        0 <= k <= d.len(),
        forall|j: int| 0 <= j < d.len() ==> is_digit(#[trigger] d[j]),
    ensures
        digits_value(d.take(k)) <= digits_value(d),
    decreases d.len(),
{
    if k < d.len() {
        assert(d.drop_last().take(k) =~= d.take(k));
        assert forall|j: int| 0 <= j < d.drop_last().len() implies is_digit(#[trigger] d.drop_last()[j]) by {
            assert(d.drop_last()[j] == d[j]);
        }
        lemma_prefix_le(d.drop_last(), k);
        lemma_digits_value_nonneg(d);
    } else {
        assert(d.take(k) =~= d);
    }
}

/// The values of the environment variables the configuration is read
/// from; `None` for a variable that is not set (or not valid Unicode).
#[derive(Debug, Clone)]
pub struct EnvValues {
    pub llm_api_key: Option<String>,
    pub zep_api_key: Option<String>,
    pub llm_base_url: Option<String>,
    pub llm_model_name: Option<String>,
    pub zep_base_url: Option<String>,
    pub server_host: Option<String>,
    pub server_port: Option<String>,
    pub upload_folder: Option<String>,
    pub default_chunk_size: Option<String>,
    pub default_chunk_overlap: Option<String>,
    pub max_upload_size: Option<String>,
    pub allowed_extensions: Option<String>,
    pub default_language: Option<String>,
}

/// A text setting: the variable's value, or the default.
pub open spec fn text_setting(v: Option<String>, d: Seq<char>) -> Seq<char> {
    match v {
        Some(s) => s@,
        None => d,
    }
}

/// A number setting: the variable's value where it reads as a number no
/// larger than `max`, or the default.
pub open spec fn number_setting(v: Option<String>, max: int, d: int) -> int {
    match v {
        Some(s) => match parsed_unsigned(s@, max) {
            Some(n) => n,
            None => d,
        },
        None => d,
    }
}

fn text_or(v: Option<String>, d: &str) -> (r: String)
    ensures
        r@ == text_setting(v, d@),
{
    match v {
        Some(s) => s,
        None => owned(d),
    }
}

fn number_or(v: &Option<String>, max: u64, d: u64) -> (r: u64)
    requires
        d <= max,
    ensures
        r == number_setting(*v, max as int, d as int),
        r <= max,
{
    match v {
        Some(s) => match parse_unsigned(s.as_str(), max) {
            Some(n) => {
                proof {
                    lemma_digits_value_nonneg(unsigned_digits(s@));
                }
                n
            },
            None => d,
        },
        None => d,
    }
}

impl AppConfig {
    /// The configuration that the environment's values give: the two API
    /// keys must be set; every other setting falls back to its default.
    pub fn from_env_values(values: EnvValues) -> (r: Result<AppConfig, ConfigError>)
        ensures
            values.llm_api_key is None ==> (r matches Err(ConfigError::Missing(m)) && m@
                == "LLM_API_KEY"@),
            values.llm_api_key is Some && values.zep_api_key is None ==> (r matches Err(
                ConfigError::Missing(m),
            ) && m@ == "ZEP_API_KEY"@),
            values.llm_api_key is Some && values.zep_api_key is Some ==> (r matches Ok(c) && {
                &&& c.llm_api_key@ == values.llm_api_key->0@
                &&& c.zep_api_key@ == values.zep_api_key->0@
                &&& c.llm_base_url@ == text_setting(
                    values.llm_base_url,
                    "https://dashscope.aliyuncs.com/compatible-mode/v1"@,
                )
                &&& c.llm_model_name@ == text_setting(values.llm_model_name, "qwen-plus"@)
                &&& c.zep_base_url@ == text_setting(values.zep_base_url, "https://api.getzep.com"@)
                &&& c.server_host@ == text_setting(values.server_host, "0.0.0.0"@)
                &&& c.server_port == number_setting(values.server_port, u16::MAX as int, 5001)
                &&& c.upload_folder@ == text_setting(values.upload_folder, "uploads"@)
                &&& c.default_chunk_size == number_setting(
                    values.default_chunk_size,
                    usize::MAX as int,
                    500,
                )
                &&& c.default_chunk_overlap == number_setting(
                    values.default_chunk_overlap,
                    usize::MAX as int,
                    50,
                )
                &&& c.max_upload_size == number_setting(
                    values.max_upload_size,
                    usize::MAX as int,
                    52428800int,
                )
                &&& views(c.allowed_extensions@) == match values.allowed_extensions {
                    Some(e) => split_from(e@, ',', 0),
                    None => seq!["pdf"@, "md"@, "txt"@],
                }
                &&& c.default_language@ == text_setting(values.default_language, "en"@)
            }),
    {
        let EnvValues {
            llm_api_key,
            zep_api_key,
            llm_base_url,
            llm_model_name,
            zep_base_url,
            server_host,
            server_port,
            upload_folder,
            default_chunk_size,
            default_chunk_overlap,
            max_upload_size,
            allowed_extensions,
            default_language,
        } = values;
        let llm_api_key = match llm_api_key {
            Some(k) => k,
            None => return Err(ConfigError::Missing(owned("LLM_API_KEY"))),
        };
        let zep_api_key = match zep_api_key {
            Some(k) => k,
            None => return Err(ConfigError::Missing(owned("ZEP_API_KEY"))),
        };
        let port = number_or(&server_port, 65535, 5001) as u16;
        let chunk_size = number_or(&default_chunk_size, usize::MAX as u64, 500) as usize;
        let chunk_overlap = number_or(&default_chunk_overlap, usize::MAX as u64, 50) as usize;
        let max_upload = number_or(&max_upload_size, usize::MAX as u64, 50 * 1024 * 1024) as usize;
        let exts = match &allowed_extensions {
            Some(e) => split_char(e.as_str(), ','),
            None => {
                let v = vec![owned("pdf"), owned("md"), owned("txt")];
                assert(views(v@) =~= seq!["pdf"@, "md"@, "txt"@]);
                v
            },
        };
        Ok(
            AppConfig {
                server_host: text_or(server_host, "0.0.0.0"),
                server_port: port,
                upload_folder: text_or(upload_folder, "uploads"),
                llm_api_key,
                llm_base_url: text_or(llm_base_url, "https://dashscope.aliyuncs.com/compatible-mode/v1"),
                llm_model_name: text_or(llm_model_name, "qwen-plus"),
                zep_api_key,
                zep_base_url: text_or(zep_base_url, "https://api.getzep.com"),
                default_chunk_size: chunk_size,
                default_chunk_overlap: chunk_overlap,
                max_upload_size: max_upload,
                allowed_extensions: exts,
                default_language: text_or(default_language, "en"),
            },
        )
    }
}

} // verus!
