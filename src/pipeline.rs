use vstd::prelude::*;

use crate::config::{AppConfig, BYTES_PER_MB};
use crate::errors::{fails_with, AppError, AppResult, ErrorView};
use crate::validation::{
    heic_signature, lowered_extension, path_safety_outcome, supported_extension,
    unsupported_extension_message, validate_heic_header, PathLookup, ValidationHelper,
};

verus! {

/// What validating a conversion request gives. `path` is the path as the user
/// gave it and `lookup` what the filesystem said of it; `file_size` is the
/// measured length of the resolved file, or the text of the error that
/// measuring it raised; `header` is what could be read of the file's first
/// twelve bytes, or the text of the error that opening it raised.
///
/// The stages run in order, each stopping the run at its first failure: the
/// path, the extension, the size against the configured ceiling (a file
/// exactly at the ceiling passes), and the magic bytes. Success yields the
/// canonical path.
pub open spec fn conversion_input_outcome(
    config: AppConfig,
    path: Seq<char>,
    lookup: PathLookup,
    file_size: Result<u64, String>,
    header: Result<Vec<u8>, String>,
    r: AppResult<String>,
) -> bool {
    match lookup {
        PathLookup::Resolved { canonical, is_file } if is_file && !crate::validation::has_parent_ref(
            path,
        ) => {
            let c = canonical@;
            let ext = lowered_extension(c);
            if !supported_extension(ext) {
                fails_with(r, ErrorView::InvalidHeicFile(unsupported_extension_message(ext)))
            } else {
                match file_size {
                    Err(e) => fails_with(r, ErrorView::IoError(e@)),
                    Ok(size) => if size > config.conversion.max_file_size_mb * BYTES_PER_MB {
                        fails_with(
                            r,
                            ErrorView::FileTooLarge {
                                file_size_mb: size / BYTES_PER_MB,
                                max_size_mb: config.conversion.max_file_size_mb,
                            },
                        )
                    } else {
                        match header {
                            Err(e) => fails_with(r, ErrorView::IoError(e@)),
                            Ok(h) => if h@.len() < 12 {
                                fails_with(
                                    r,
                                    ErrorView::InvalidHeicFile("File too small or unreadable"@),
                                )
                            } else if !heic_signature(h@) {
                                fails_with(
                                    r,
                                    ErrorView::InvalidHeicFile("Invalid HEIC/HEIF magic bytes"@),
                                )
                            } else {
                                r matches Ok(x) && x@ == c
                            },
                        }
                    },
                }
            }
        },
        _ => path_safety_outcome(path, lookup, r),
    }
}

/// Runs the validation stages on a conversion request; see
/// `conversion_input_outcome`.
pub fn validate_conversion_input(
    config: &AppConfig,
    path: &str,
    lookup: &PathLookup,
    file_size: &Result<u64, String>,
    header: &Result<Vec<u8>, String>,
) -> (r: AppResult<String>)
    ensures
        conversion_input_outcome(*config, path@, *lookup, *file_size, *header, r),
{
    let canonical = match ValidationHelper::validate_path_safety(path, lookup) {
        Err(e) => return Err(e),
        Ok(c) => c,
    };
    match ValidationHelper::validate_extension(canonical.as_str()) {
        Err(e) => return Err(e),
        Ok(()) => {},
    }
    let size = match file_size {
        Err(e) => return Err(AppError::IoError(e.clone())),
        Ok(s) => *s,
    };
    let mb = config.conversion.max_file_size_mb;
    let max_size = if mb <= u64::MAX / BYTES_PER_MB {
        config.max_file_size_bytes()
    } else {
        u64::MAX
    };
    proof {
        if mb <= u64::MAX / BYTES_PER_MB {
            assert(max_size / BYTES_PER_MB == mb);
        } else {
            assert(mb * BYTES_PER_MB > u64::MAX) by (nonlinear_arith)
                requires
                    mb > u64::MAX / BYTES_PER_MB,
            {
            }
        }
    }
    match ValidationHelper::validate_file_size(size, max_size) {
        Err(e) => return Err(e),
        Ok(()) => {},
    }
    match header {
        Err(e) => return Err(AppError::IoError(e.clone())),
        Ok(h) => match validate_heic_header(h.as_slice()) {
            Err(e) => return Err(e),
            Ok(()) => {},
        },
    }
    Ok(canonical)
}

/// A request passes validation only when its path holds no two consecutive
/// dots and resolves to a regular file whose lower-cased extension is
/// supported, whose size is within the configured ceiling, and whose first
/// twelve bytes are a HEIC/HEIF signature; what it yields is then the
/// canonical path.
pub proof fn lemma_accepted_input_is_heic(
    config: AppConfig,
    path: Seq<char>,
    lookup: PathLookup,
    file_size: Result<u64, String>,
    header: Result<Vec<u8>, String>,
    r: AppResult<String>,
)
    requires
        conversion_input_outcome(config, path, lookup, file_size, header, r),
        r is Ok,
    ensures
        !crate::validation::has_parent_ref(path),
        lookup matches PathLookup::Resolved { canonical, is_file } && is_file
            && supported_extension(lowered_extension(canonical@)) && r->Ok_0@ == canonical@,
        file_size matches Ok(size) && size <= config.conversion.max_file_size_mb * BYTES_PER_MB,
        header matches Ok(h) && heic_signature(h@),
{
}

} // verus!
