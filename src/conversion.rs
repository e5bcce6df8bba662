use vstd::prelude::*;

use crate::config::AppConfig;
use crate::errors::{fails_with, AppError, AppResult, ErrorView};
use crate::text::decimal;
use crate::validation::{file_name_outcome, ValidationHelper};

verus! {

/// Relies on `uuid::Uuid::new_v4`, written through its `Display`: a random
/// identifier in the hyphenated form, 36 characters long.
#[verifier::external_body]
fn new_unique_id() -> (r: String)
    ensures
        r@.len() == 36,
{
    uuid::Uuid::new_v4().to_string()
}

/// The suffix of every converted file's name.
pub open spec fn converted_suffix() -> Seq<char> {
    "_converted.jpg"@
}

/// The name of the converted file for the identifier `id`.
pub fn output_file_name(id: &str) -> (r: String)
    ensures
        r@ == id@ + converted_suffix(),
{
    let mut name = String::from_str(id);
    name.append("_converted.jpg");
    name
}

/// A fresh name for a converted file: a random 36-character identifier
/// followed by `_converted.jpg`.
pub fn fresh_output_file_name() -> (r: String)
    ensures
        r@.len() == 36 + converted_suffix().len(),
        r@.skip(36) == converted_suffix(),
{
    let id = new_unique_id();
    let r = output_file_name(id.as_str());
    assert(r@.skip(36) =~= converted_suffix());
    r
}

/// A name for a temporary copy of the user's file `file_name`: a random
/// 36-character identifier, `_`, then the name, once the name is valid.
pub fn temp_file_name(file_name: &str) -> (r: AppResult<String>)
    ensures
        r matches Err(e) ==> file_name_outcome(file_name@, file_name.len(), Err(e)),
        r is Ok <==> file_name_outcome(file_name@, file_name.len(), Ok(())),
        r matches Ok(n) ==> n@.len() == 37 + file_name@.len() && n@[36] == '_' && n@.skip(37)
            == file_name@,
{
    match ValidationHelper::validate_file_name(file_name) {
        Err(e) => Err(e),
        Ok(()) => {
            let mut name = new_unique_id();
            name.append("_");
            name.append(file_name);
            proof {
                reveal_strlit("_");
            }
            assert(name@.skip(37) =~= file_name@);
            Ok(name)
        },
    }
}

/// The image-conversion command-line utility of the native strategy.
pub fn native_tool_program() -> (r: &'static str)
    ensures
        r@ == "sips"@,
{
    "sips"
}

/// The arguments that ask the native utility to write `output` as a JPEG of
/// `input` at the configured quality.
pub fn native_tool_arguments(input: &str, output: &str, config: &AppConfig) -> (r: Vec<String>)
    ensures
        r@.len() == 9,
        r@[0]@ == "-s"@,
        r@[1]@ == "format"@,
        r@[2]@ == "jpeg"@,
        r@[3]@ == "-s"@,
        r@[4]@ == "formatOptions"@,
        r@[5]@ == decimal(config.conversion.jpeg_quality as nat),
        r@[6]@ == input@,
        r@[7]@ == "--out"@,
        r@[8]@ == output@,
{
    let mut args: Vec<String> = Vec::new();
    args.push(String::from_str("-s"));
    args.push(String::from_str("format"));
    args.push(String::from_str("jpeg"));
    args.push(String::from_str("-s"));
    args.push(String::from_str("formatOptions"));
    args.push(config.jpeg_quality_string());
    args.push(String::from_str(input));
    args.push(String::from_str("--out"));
    args.push(String::from_str(output));
    args
}

/// How a run of the native utility ended.
#[derive(Debug, Clone, PartialEq, Eq)]
pub enum ToolRun {
    /// The utility could not be started; the launch error's text.
    LaunchFailed(String),
    /// The utility ran: whether its exit status was success, and its standard error.
    Exited { success: bool, stderr: String },
}

/// How a decode and re-encode through the image library ended.
#[derive(Debug, Clone, PartialEq, Eq)]
pub enum LibraryRun {
    /// The library could not decode the input.
    Undecodable,
    /// The decoded image could not be written; the library's error text.
    SaveFailed(String),
    /// The JPEG was written.
    Saved,
}

pub open spec fn native_tool_outcome(run: ToolRun, r: AppResult<()>) -> bool {
    match run {
        ToolRun::LaunchFailed(e) => fails_with(
            r,
            ErrorView::ConversionFailed("Failed to execute sips: "@ + e@),
        ),
        ToolRun::Exited { success, stderr } => if success {
            r is Ok
        } else {
            fails_with(r, ErrorView::ConversionFailed("sips command failed: "@ + stderr@))
        },
    }
}

pub open spec fn library_fallback_outcome(run: LibraryRun, r: AppResult<()>) -> bool {
    match run {
        LibraryRun::Undecodable => fails_with(
            r,
            ErrorView::ConversionFailed(
                "HEIC format not supported on this platform. Please use macOS with sips."@,
            ),
        ),
        LibraryRun::SaveFailed(e) => fails_with(r, ErrorView::ConversionFailed(e@)),
        LibraryRun::Saved => r is Ok,
    }
}

/// The result of a conversion by the native utility: a launch failure and a
/// failing exit status are both conversion failures, the latter carrying the
/// utility's diagnostic text verbatim.
pub fn native_tool_result(run: &ToolRun) -> (r: AppResult<()>)
    ensures
        native_tool_outcome(*run, r),
{
    match run {
        ToolRun::LaunchFailed(e) => {
            let mut m = String::from_str("Failed to execute sips: ");
            m.append(e.as_str());
            Err(AppError::ConversionFailed(m))
        },
        ToolRun::Exited { success, stderr } => {
            if *success {
                Ok(())
            } else {
                let mut m = String::from_str("sips command failed: ");
                m.append(stderr.as_str());
                Err(AppError::ConversionFailed(m))
            }
        },
    }
}

/// The result of a conversion through the image library.
pub fn library_fallback_result(run: &LibraryRun) -> (r: AppResult<()>)
    ensures
        library_fallback_outcome(*run, r),
{
    match run {
        LibraryRun::Undecodable => Err(
            AppError::ConversionFailed(
                String::from_str(
                    "HEIC format not supported on this platform. Please use macOS with sips.",
                ),
            ),
        ),
        LibraryRun::SaveFailed(e) => Err(AppError::ConversionFailed(e.clone())),
        LibraryRun::Saved => Ok(()),
    }
}

} // verus!
