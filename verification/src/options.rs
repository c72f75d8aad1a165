//! Scan options as the engine understands them: the output format and the
//! scan profile, each recognised from its command-line name or one-letter
//! short form.  Extracting the raw strings from the command line is the
//! caller's concern; the mapping from name to option is decided here.

use vstd::prelude::*;
use crate::text::str_eq;

verus! {

/// How results and interface listings are rendered by the presentation
/// layer.
#[derive(Clone, Copy, PartialEq, Eq, Structural, Debug)]
pub enum OutputFormat {
    Plain,
    Json,
    Yaml,
    Csv,
}

/// A preset of scan options.  Only the read timeout is tuned by a profile
/// in the engine as it stands; the names are accepted and carried through.
#[derive(Clone, Copy, PartialEq, Eq, Structural, Debug)]
pub enum ProfileType {
    Default,
    Fast,
    Stealth,
    Chaos,
}

/// The profile a name denotes, if any.
pub open spec fn spec_profile_from_name(s: Seq<char>) -> Option<ProfileType> {
    if s == "default"@ || s == "d"@ {
        Some(ProfileType::Default)
    } else if s == "fast"@ || s == "f"@ {
        Some(ProfileType::Fast)
    } else if s == "stealth"@ || s == "s"@ {
        Some(ProfileType::Stealth)
    } else if s == "chaos"@ || s == "c"@ {
        Some(ProfileType::Chaos)
    } else {
        None
    }
}

/// The output format a name denotes, if any.
pub open spec fn spec_output_from_name(s: Seq<char>) -> Option<OutputFormat> {
    if s == "plain"@ || s == "p"@ {
        Some(OutputFormat::Plain)
    } else if s == "json"@ || s == "j"@ {
        Some(OutputFormat::Json)
    } else if s == "yaml"@ || s == "y"@ {
        Some(OutputFormat::Yaml)
    } else if s == "csv"@ || s == "c"@ {
        Some(OutputFormat::Csv)
    } else {
        None
    }
}

/// Recognises a profile name or its one-letter short form.
pub fn profile_from_name(name: &str) -> (r: Option<ProfileType>)
    ensures
        r == spec_profile_from_name(name@),
{
    if str_eq(name, "default") || str_eq(name, "d") {
        Some(ProfileType::Default)
    } else if str_eq(name, "fast") || str_eq(name, "f") {
        Some(ProfileType::Fast)
    } else if str_eq(name, "stealth") || str_eq(name, "s") {
        Some(ProfileType::Stealth)
    } else if str_eq(name, "chaos") || str_eq(name, "c") {
        Some(ProfileType::Chaos)
    } else {
        None
    }
}

/// Recognises an output-format name or its one-letter short form.
pub fn output_from_name(name: &str) -> (r: Option<OutputFormat>)
    ensures
        r == spec_output_from_name(name@),
{
    if str_eq(name, "plain") || str_eq(name, "p") {
        Some(OutputFormat::Plain)
    } else if str_eq(name, "json") || str_eq(name, "j") {
        Some(OutputFormat::Json)
    } else if str_eq(name, "yaml") || str_eq(name, "y") {
        Some(OutputFormat::Yaml)
    } else if str_eq(name, "csv") || str_eq(name, "c") {
        Some(OutputFormat::Csv)
    } else {
        None
    }
}

} // verus!
