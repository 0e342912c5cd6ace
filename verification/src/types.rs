//! Error taxonomy and the closed enumerations a caller's string input is
//! validated against, together with their parsers.
//!
//! Every parser runs locally, before any network dispatch: a string that
//! names no member of the enumeration is rejected with a validation error
//! and nothing else happens.

use vstd::prelude::*;
use vstd::string::StrSliceExecFns;
use vstd::string::StringExecFns;

verus! {

/// Typed failure crossing the host boundary, each with a message.
///
/// - `Validation`: malformed input, always detected locally before any
///   network access.
/// - `Transport`: socket or protocol failure while starting or writing on
///   a live connection; never retried internally.
/// - `Auth` / `Remote`: non-success status from the remote session
///   lifecycle API, carrying the remote-provided message verbatim.
#[derive(Debug, Clone)]
pub enum ApiError {
    Validation(String),
    Transport(String),
    Auth(String),
    Remote(String),
}

/// Transcription model requested at session creation.
#[derive(Debug, Clone, Copy, PartialEq, Eq, Structural)]
pub enum ModelType {
    Speed,
    Quality,
    QualityV2,
}

/// Kind of document an export request asks for.
#[derive(Debug, Clone, Copy, PartialEq, Eq, Structural)]
pub enum ExportType {
    Transcript,
    Overview,
    Summary,
}

/// File format an export request asks for.
#[derive(Debug, Clone, Copy, PartialEq, Eq, Structural)]
pub enum ExportFormat {
    Pdf,
    Txt,
    Docx,
}

/// Target language of a translation request.
#[derive(Debug, Clone, Copy, PartialEq, Eq, Structural)]
pub enum Language {
    ChineseSimplified,
    EnglishUS,
    Japanese,
    Korean,
    French,
    German,
}

/// ASCII case folding of one character: the twenty-six uppercase letters
/// map to their lowercase counterparts, every other character is kept.
pub open spec fn lower_char(c: char) -> char {
    if 65 <= c as int && c as int <= 90 {
        (((c as int) + 32) as u8) as char
    } else {
        c
    }
}

/// ASCII case folding of a whole character sequence.
pub open spec fn lower(s: Seq<char>) -> Seq<char> {
    s.map_values(|c: char| lower_char(c))
}

fn lower_char_exec(c: char) -> (r: char)
    ensures
        r == lower_char(c),
{
    let u = c as u32;
    if 65 <= u && u <= 90 {
        ((u + 32) as u8) as char
    } else {
        c
    }
}

/// True exactly when `value`, folded to ASCII lowercase, spells `target`.
fn eq_lower(value: &str, target: &str) -> (r: bool)
    ensures
        r == (lower(value@) == target@),
{
    let n = value.unicode_len();
    if n != target.unicode_len() {
        assert(lower(value@).len() != target@.len());
        return false;
    }
    let mut i: usize = 0;
    while i < n
        invariant
            n == value@.len(),
            n == target@.len(),
            i <= n,
            forall|j: int| 0 <= j < i ==> lower_char(value@[j]) == target@[j],
        decreases n - i,
    {
        if lower_char_exec(value.get_char(i)) != target.get_char(i) {
            assert(lower(value@)[i as int] != target@[i as int]);
            return false;
        }
        i = i + 1;
    }
    assert(lower(value@) =~= target@);
    true
}

/// What `parse_model` accepts: the model enumeration member named by the
/// input after ASCII case folding, if any.
pub open spec fn spec_parse_model(s: Seq<char>) -> Option<ModelType> {
    if lower(s) == "speed"@ {
        Some(ModelType::Speed)
    } else if lower(s) == "quality"@ {
        Some(ModelType::Quality)
    } else if lower(s) == "quality_v2"@ {
        Some(ModelType::QualityV2)
    } else {
        None
    }
}

/// Parses a caller-supplied model name, case-insensitively, against the
/// closed enumeration; anything else is a validation error.
pub fn parse_model(value: &str) -> (r: Result<ModelType, ApiError>)
    ensures
        r is Ok <==> spec_parse_model(value@) is Some,
        r is Ok ==> spec_parse_model(value@) == Some(r->Ok_0),
        r is Err ==> r->Err_0 is Validation,
        r matches Err(ApiError::Validation(m)) ==> m@ == "unsupported model '"@ + value@
            + "' (expected 'speed' 'quality' or 'quality_v2')"@,
{
    if eq_lower(value, "speed") {
        Ok(ModelType::Speed)
    } else if eq_lower(value, "quality") {
        Ok(ModelType::Quality)
    } else if eq_lower(value, "quality_v2") {
        Ok(ModelType::QualityV2)
    } else {
        Err(ApiError::Validation(unsupported(
            "unsupported model '",
            value,
            "' (expected 'speed' 'quality' or 'quality_v2')",
        )))
    }
}

/// What `parse_export_type` accepts.
pub open spec fn spec_parse_export_type(s: Seq<char>) -> Option<ExportType> {
    if lower(s) == "transcript"@ {
        Some(ExportType::Transcript)
    } else if lower(s) == "overview"@ {
        Some(ExportType::Overview)
    } else if lower(s) == "summary"@ {
        Some(ExportType::Summary)
    } else {
        None
    }
}

/// Parses a caller-supplied export type, case-insensitively, against the
/// closed enumeration; anything else is a validation error.
pub fn parse_export_type(value: &str) -> (r: Result<ExportType, ApiError>)
    ensures
        r is Ok <==> spec_parse_export_type(value@) is Some,
        r is Ok ==> spec_parse_export_type(value@) == Some(r->Ok_0),
        r is Err ==> r->Err_0 is Validation,
        r matches Err(ApiError::Validation(m)) ==> m@ == "unsupported export type '"@ + value@
            + "'"@,
{
    if eq_lower(value, "transcript") {
        Ok(ExportType::Transcript)
    } else if eq_lower(value, "overview") {
        Ok(ExportType::Overview)
    } else if eq_lower(value, "summary") {
        Ok(ExportType::Summary)
    } else {
        Err(ApiError::Validation(unsupported("unsupported export type '", value, "'")))
    }
}

/// What `parse_export_format` accepts.
pub open spec fn spec_parse_export_format(s: Seq<char>) -> Option<ExportFormat> {
    if lower(s) == "pdf"@ {
        Some(ExportFormat::Pdf)
    } else if lower(s) == "txt"@ {
        Some(ExportFormat::Txt)
    } else if lower(s) == "docx"@ {
        Some(ExportFormat::Docx)
    } else {
        None
    }
}

/// Parses a caller-supplied export format, case-insensitively, against
/// the closed enumeration; anything else is a validation error.
pub fn parse_export_format(value: &str) -> (r: Result<ExportFormat, ApiError>)
    ensures
        r is Ok <==> spec_parse_export_format(value@) is Some,
        r is Ok ==> spec_parse_export_format(value@) == Some(r->Ok_0),
        r is Err ==> r->Err_0 is Validation,
        r matches Err(ApiError::Validation(m)) ==> m@ == "unsupported export format '"@ + value@
            + "'"@,
{
    if eq_lower(value, "pdf") {
        Ok(ExportFormat::Pdf)
    } else if eq_lower(value, "txt") {
        Ok(ExportFormat::Txt)
    } else if eq_lower(value, "docx") {
        Ok(ExportFormat::Docx)
    } else {
        Err(ApiError::Validation(unsupported("unsupported export format '", value, "'")))
    }
}

/// What `parse_language` accepts: several aliases name one language.
pub open spec fn spec_parse_language(s: Seq<char>) -> Option<Language> {
    if lower(s) == "zh"@ || lower(s) == "zh-cn"@ {
        Some(Language::ChineseSimplified)
    } else if lower(s) == "en"@ || lower(s) == "en-us"@ {
        Some(Language::EnglishUS)
    } else if lower(s) == "ja"@ {
        Some(Language::Japanese)
    } else if lower(s) == "ko"@ || lower(s) == "kr"@ || lower(s) == "jp"@ {
        Some(Language::Korean)
    } else if lower(s) == "fr"@ {
        Some(Language::French)
    } else if lower(s) == "de"@ {
        Some(Language::German)
    } else {
        None
    }
}

/// Parses a caller-supplied language code, case-insensitively, against
/// the closed set of aliases; anything else is a validation error.
pub fn parse_language(value: &str) -> (r: Result<Language, ApiError>)
    ensures
        r is Ok <==> spec_parse_language(value@) is Some,
        r is Ok ==> spec_parse_language(value@) == Some(r->Ok_0),
        r is Err ==> r->Err_0 is Validation,
        r matches Err(ApiError::Validation(m)) ==> m@ == "unsupported language code '"@ + value@
            + "'"@,
{
    if eq_lower(value, "zh") || eq_lower(value, "zh-cn") {
        Ok(Language::ChineseSimplified)
    } else if eq_lower(value, "en") || eq_lower(value, "en-us") {
        Ok(Language::EnglishUS)
    } else if eq_lower(value, "ja") {
        Ok(Language::Japanese)
    } else if eq_lower(value, "ko") || eq_lower(value, "kr") || eq_lower(value, "jp") {
        Ok(Language::Korean)
    } else if eq_lower(value, "fr") {
        Ok(Language::French)
    } else if eq_lower(value, "de") {
        Ok(Language::German)
    } else {
        Err(ApiError::Validation(unsupported("unsupported language code '", value, "'")))
    }
}

/// The canonical wire name of each model.
pub open spec fn spec_model_str(m: ModelType) -> Seq<char> {
    match m {
        ModelType::Speed => "speed"@,
        ModelType::Quality => "quality"@,
        ModelType::QualityV2 => "quality_v2"@,
    }
}

/// The canonical wire name of each export type.
pub open spec fn spec_export_type_str(t: ExportType) -> Seq<char> {
    match t {
        ExportType::Transcript => "transcript"@,
        ExportType::Overview => "overview"@,
        ExportType::Summary => "summary"@,
    }
}

/// The canonical wire name of each export format.
pub open spec fn spec_export_format_str(f: ExportFormat) -> Seq<char> {
    match f {
        ExportFormat::Pdf => "pdf"@,
        ExportFormat::Txt => "txt"@,
        ExportFormat::Docx => "docx"@,
    }
}

/// The canonical code of each language.
pub open spec fn spec_language_str(l: Language) -> Seq<char> {
    match l {
        Language::ChineseSimplified => "zh-cn"@,
        Language::EnglishUS => "en-us"@,
        Language::Japanese => "ja"@,
        Language::Korean => "ko"@,
        Language::French => "fr"@,
        Language::German => "de"@,
    }
}

impl ModelType {
    /// Renders the model under its canonical wire name.
    pub fn as_str(&self) -> (r: &'static str)
        ensures
            r@ == spec_model_str(*self),
    {
        match self {
            ModelType::Speed => "speed",
            ModelType::Quality => "quality",
            ModelType::QualityV2 => "quality_v2",
        }
    }
}

impl ExportType {
    /// Renders the export type under its canonical wire name.
    pub fn as_str(&self) -> (r: &'static str)
        ensures
            r@ == spec_export_type_str(*self),
    {
        match self {
            ExportType::Transcript => "transcript",
            ExportType::Overview => "overview",
            ExportType::Summary => "summary",
        }
    }
}

impl ExportFormat {
    /// Renders the export format under its canonical wire name.
    pub fn as_str(&self) -> (r: &'static str)
        ensures
            r@ == spec_export_format_str(*self),
    {
        match self {
            ExportFormat::Pdf => "pdf",
            ExportFormat::Txt => "txt",
            ExportFormat::Docx => "docx",
        }
    }
}

impl Language {
    /// Renders the language under its canonical code.
    pub fn as_str(&self) -> (r: &'static str)
        ensures
            r@ == spec_language_str(*self),
    {
        match self {
            Language::ChineseSimplified => "zh-cn",
            Language::EnglishUS => "en-us",
            Language::Japanese => "ja",
            Language::Korean => "ko",
            Language::French => "fr",
            Language::German => "de",
        }
    }
}

impl ApiError {
    /// The message carried by the failure, whichever its kind.
    pub fn message(&self) -> (r: &str)
        ensures
            (match self {
                ApiError::Validation(m) => r@ == m@,
                ApiError::Transport(m) => r@ == m@,
                ApiError::Auth(m) => r@ == m@,
                ApiError::Remote(m) => r@ == m@,
            }),
    {
        match self {
            ApiError::Validation(m) => m.as_str(),
            ApiError::Transport(m) => m.as_str(),
            ApiError::Auth(m) => m.as_str(),
            ApiError::Remote(m) => m.as_str(),
        }
    }
}

/// Builds a validation message around the offending input.
fn unsupported(prefix: &str, value: &str, suffix: &str) -> (r: String)
    ensures
        r@ == prefix@ + value@ + suffix@,
{
    let mut message = prefix.to_owned();
    message.append(value);
    message.append(suffix);
    message
}

/// Whether a string is one well-formed JSON document: a function of its
/// characters alone.
pub uninterp spec fn json_well_formed(s: Seq<char>) -> bool;

/// Relies on serde_json::from_str::<Value>, which returns Ok exactly on
/// a string holding one well-formed JSON document; the error case
/// carries serde_json's own description.
#[verifier::external_body]
fn parse_json_document(text: &str) -> (r: Result<(), String>)
    ensures
        r is Ok <==> json_well_formed(text@),
{
    match serde_json::from_str::<serde_json::Value>(text) {
        Ok(_) => Ok(()),
        Err(err) => Err(format!("{err}")),
    }
}

/// Checks a callback payload locally, before any dispatch: it is
/// accepted exactly when it is one well-formed JSON document, and
/// rejected with a validation error otherwise.
pub fn validate_callback_payload(text: &str) -> (r: Result<(), ApiError>)
    ensures
        r is Ok <==> json_well_formed(text@),
        r is Err ==> r->Err_0 is Validation,
{
    match parse_json_document(text) {
        Ok(()) => Ok(()),
        Err(detail) => Err(
            ApiError::Validation(unsupported("invalid callback payload: ", detail.as_str(), "")),
        ),
    }
}

} // verus!
