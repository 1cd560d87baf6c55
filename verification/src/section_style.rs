use vstd::prelude::*;

use crate::text::str_eq;

verus! {

/// How a section (commit, file, hunk header) of the diff output is drawn.
#[derive(Clone, Copy, Debug, PartialEq, Eq, Structural)]
pub enum SectionStyle {
    Box,
    Plain,
    Underline,
    Omit,
}

/// The error of parsing a section style.
#[derive(Clone, Copy, Debug, PartialEq, Eq, Structural)]
pub enum Error {
    SectionStyleParseError,
}

impl Error {
    /// The text of the error, which is empty.
    pub fn to_string(&self) -> (res: String)
        ensures
            res@ == Seq::<char>::empty(),
    {
        String::new()
    }
}

/// The lowercase form of a string, as `str::to_lowercase` computes it
/// (Unicode lowercase mapping).
pub uninterp spec fn lowercase(s: Seq<char>) -> Seq<char>;

/// The lowercase form of an ASCII character: `A` to `Z` become `a` to `z`,
/// every other character stays.
pub open spec fn ascii_lowercase_char(c: char) -> char {
    if 'A' <= c && c <= 'Z' {
        ((c as u32) + 32) as char
    } else {
        c
    }
}

/// The lowercase form of a string of ASCII characters, character by character.
pub open spec fn ascii_lowercase(s: Seq<char>) -> Seq<char> {
    s.map_values(|c: char| ascii_lowercase_char(c))
}

/// Calls `str::to_lowercase`. Its result is named by `lowercase`, a function
/// of the argument's characters alone. Of an all-ASCII argument it is also
/// stated that the result maps `A`-`Z` to `a`-`z` and keeps every other
/// character (the Unicode lowercase mapping on ASCII, which `to_lowercase`
/// applies); the mapping of other characters is not stated.
#[verifier::external_body]
pub(crate) fn to_lowercase(s: &str) -> (res: String)
    ensures
        res@ == lowercase(s@),
        vstd::utf8::is_ascii_chars(s@) ==> res@ == ascii_lowercase(s@),
{
    s.to_lowercase()
}

/// The section style that an already lowercased name denotes, if any.
pub open spec fn spec_parse_lowercase(name: Seq<char>) -> Result<SectionStyle, Error> {
    if name == "box"@ {
        Ok(SectionStyle::Box)
    } else if name == "plain"@ {
        Ok(SectionStyle::Plain)
    } else if name == "underline"@ {
        Ok(SectionStyle::Underline)
    } else {
        Err(Error::SectionStyleParseError)
    }
}

/// The section style that a name denotes, case being ignored.
pub open spec fn spec_from_str(s: Seq<char>) -> Result<SectionStyle, Error> {
    spec_parse_lowercase(lowercase(s))
}

impl SectionStyle {
    /// Parses a lowercase section style name: `box`, `plain` or `underline`.
    pub fn parse_lowercase(name: &str) -> (res: Result<SectionStyle, Error>)
        ensures
            res == spec_parse_lowercase(name@),
    {
        if str_eq(name, "box") {
            Ok(SectionStyle::Box)
        } else if str_eq(name, "plain") {
            Ok(SectionStyle::Plain)
        } else if str_eq(name, "underline") {
            Ok(SectionStyle::Underline)
        } else {
            Err(Error::SectionStyleParseError)
        }
    }

    /// Parses a section style name, ignoring case.
    pub fn from_str(s: &str) -> (res: Result<SectionStyle, Error>)
        ensures
            res == spec_from_str(s@),
            vstd::utf8::is_ascii_chars(s@) ==> res == spec_parse_lowercase(ascii_lowercase(s@)),
    {
        let lower = to_lowercase(s);
        SectionStyle::parse_lowercase(lower.as_str())
    }
}

impl std::str::FromStr for SectionStyle {
    type Err = Error;

    fn from_str(s: &str) -> (res: Result<SectionStyle, Error>)
        ensures
            res == spec_from_str(s@),
            vstd::utf8::is_ascii_chars(s@) ==> res == spec_parse_lowercase(ascii_lowercase(s@)),
    {
        SectionStyle::from_str(s)
    }
}

/// A name is parsed by its lowercase form alone: two names with the same
/// lowercase form denote the same section style or are both refused.
pub proof fn lemma_from_str_ignores_case(a: Seq<char>, b: Seq<char>)
    requires
        lowercase(a) == lowercase(b),
    ensures
        spec_from_str(a) == spec_from_str(b),
{
}

/// Parsing never yields `Omit`: only `box`, `plain` and `underline` are
/// accepted names.
pub proof fn lemma_parse_never_omit(s: Seq<char>)
    ensures
        spec_from_str(s) != Ok::<SectionStyle, Error>(SectionStyle::Omit),
{
}

} // verus!
