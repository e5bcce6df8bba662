use heic_convert::config::AppConfig;
use heic_convert::conversion::{
    fresh_output_file_name, library_fallback_result, native_tool_arguments, native_tool_program,
    native_tool_result, output_file_name, temp_file_name, LibraryRun, ToolRun,
};
use heic_convert::errors::AppError;
use heic_convert::pipeline::validate_conversion_input;
use heic_convert::validation::PathLookup;

fn resolved(canonical: &str) -> PathLookup {
    PathLookup::Resolved { canonical: canonical.to_string(), is_file: true }
}

fn heic_header() -> Vec<u8> {
    let mut h = vec![0u8, 0, 0, 24];
    h.extend_from_slice(b"ftypheic");
    h
}

#[test]
fn empty_heic_file_is_rejected_at_magic_bytes() {
    let r = validate_conversion_input(
        &AppConfig::default(),
        "/tmp/empty.heic",
        &resolved("/tmp/empty.heic"),
        &Ok(0),
        &Ok(vec![]),
    );
    assert_eq!(r, Err(AppError::InvalidHeicFile("File too small or unreadable".to_string())));
}

#[test]
fn valid_request_yields_canonical_path() {
    let r = validate_conversion_input(
        &AppConfig::default(),
        "img.HEIC",
        &resolved("/home/u/img.HEIC"),
        &Ok(2048),
        &Ok(heic_header()),
    );
    assert_eq!(r, Ok("/home/u/img.HEIC".to_string()));
}

#[test]
fn stages_run_in_order() {
    let config = AppConfig::default();
    // a bad extension is reported before the size
    let r = validate_conversion_input(
        &config,
        "/p/a.png",
        &resolved("/p/a.png"),
        &Ok(u64::MAX),
        &Ok(vec![]),
    );
    assert_eq!(
        r,
        Err(AppError::InvalidHeicFile("Unsupported extension 'png'. Supported: heic, heif".to_string()))
    );
    // the size is reported before the magic bytes
    let r = validate_conversion_input(
        &config,
        "/p/a.heic",
        &resolved("/p/a.heic"),
        &Ok(100 * 1024 * 1024 + 1),
        &Ok(vec![]),
    );
    assert_eq!(r, Err(AppError::FileTooLarge { file_size_mb: 100, max_size_mb: 100 }));
    // the path is reported before anything else
    let r = validate_conversion_input(&config, "/p/../a.png", &resolved("/a.png"), &Ok(u64::MAX), &Ok(vec![]));
    assert_eq!(r, Err(AppError::InvalidPath("Path traversal not allowed".to_string())));
    let r = validate_conversion_input(&config, "/nope.heic", &PathLookup::Unresolvable, &Ok(0), &Ok(vec![]));
    assert_eq!(r, Err(AppError::InvalidPath("Cannot resolve path".to_string())));
}

#[test]
fn file_exactly_at_ceiling_passes() {
    let r = validate_conversion_input(
        &AppConfig::default(),
        "/p/a.heif",
        &resolved("/p/a.heif"),
        &Ok(100 * 1024 * 1024),
        &Ok(heic_header()),
    );
    assert_eq!(r, Ok("/p/a.heif".to_string()));
}

#[test]
fn huge_ceiling_never_overflows() {
    let config = AppConfig::load(None, None, Some("18446744073709551615".to_string()));
    let r = validate_conversion_input(&config, "/p/a.heic", &resolved("/p/a.heic"), &Ok(u64::MAX), &Ok(heic_header()));
    assert_eq!(r, Ok("/p/a.heic".to_string()));
}

#[test]
fn io_errors_are_reported() {
    let config = AppConfig::default();
    let r = validate_conversion_input(&config, "/p/a.heic", &resolved("/p/a.heic"), &Err("denied".to_string()), &Ok(heic_header()));
    assert_eq!(r, Err(AppError::IoError("denied".to_string())));
    let r = validate_conversion_input(&config, "/p/a.heic", &resolved("/p/a.heic"), &Ok(10), &Err("gone".to_string()));
    assert_eq!(r, Err(AppError::IoError("gone".to_string())));
}

#[test]
fn native_tool_command_line() {
    let config = AppConfig::load(None, Some("42".to_string()), None);
    assert_eq!(native_tool_program(), "sips");
    assert_eq!(
        native_tool_arguments("/in/a.heic", "/tmp/x_converted.jpg", &config),
        vec!["-s", "format", "jpeg", "-s", "formatOptions", "42", "/in/a.heic", "--out", "/tmp/x_converted.jpg"]
    );
}

#[test]
fn native_tool_outcomes() {
    assert_eq!(native_tool_result(&ToolRun::Exited { success: true, stderr: String::new() }), Ok(()));
    assert_eq!(
        native_tool_result(&ToolRun::Exited { success: false, stderr: "Error: bad".to_string() }),
        Err(AppError::ConversionFailed("sips command failed: Error: bad".to_string()))
    );
    assert_eq!(
        native_tool_result(&ToolRun::LaunchFailed("No such file or directory".to_string())),
        Err(AppError::ConversionFailed("Failed to execute sips: No such file or directory".to_string()))
    );
}

#[test]
fn library_fallback_outcomes() {
    assert_eq!(library_fallback_result(&LibraryRun::Saved), Ok(()));
    assert_eq!(
        library_fallback_result(&LibraryRun::Undecodable),
        Err(AppError::ConversionFailed(
            "HEIC format not supported on this platform. Please use macOS with sips.".to_string()
        ))
    );
    assert_eq!(
        library_fallback_result(&LibraryRun::SaveFailed("disk full".to_string())),
        Err(AppError::ConversionFailed("disk full".to_string()))
    );
}

#[test]
fn output_names_are_fresh() {
    assert_eq!(output_file_name("abc"), "abc_converted.jpg");
    let a = fresh_output_file_name();
    let b = fresh_output_file_name();
    assert_ne!(a, b);
    assert!(a.ends_with("_converted.jpg"));
    assert_eq!(a.len(), 36 + "_converted.jpg".len());
    assert_ne!(a, "/tmp/in.heic");
}

#[test]
fn temp_names() {
    let n = temp_file_name("photo.heic").unwrap();
    assert_eq!(n.len(), 37 + "photo.heic".len());
    assert!(n.ends_with("_photo.heic"));
    assert_ne!(temp_file_name("photo.heic").unwrap(), n);
    assert_eq!(
        temp_file_name("a/b.heic"),
        Err(AppError::InvalidPath("File name contains invalid characters".to_string()))
    );
}

#[test]
fn error_messages() {
    assert_eq!(AppError::FileNotFound("x".to_string()).to_string(), "File not found: x");
    assert_eq!(AppError::InvalidPath("y".to_string()).to_string(), "Invalid file path: y");
    assert_eq!(
        AppError::FileTooLarge { file_size_mb: 120, max_size_mb: 100 }.to_string(),
        "File size 120MB exceeds maximum 100MB"
    );
    assert_eq!(AppError::InvalidHeicFile("r".to_string()).to_string(), "Invalid HEIC/HEIF file: r");
    assert_eq!(AppError::ConversionFailed("r".to_string()).to_string(), "Conversion failed: r");
    assert_eq!(AppError::SaveFailed("r".to_string()).to_string(), "Save failed: r");
    assert_eq!(AppError::TempFileFailed("r".to_string()).to_string(), "Temporary file operation failed: r");
    assert_eq!(AppError::ConfigError("r".to_string()).to_string(), "Configuration error: r");
    assert_eq!(AppError::IoError("r".to_string()).to_string(), "I/O error: r");
}
