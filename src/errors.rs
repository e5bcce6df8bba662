use vstd::prelude::*;

use crate::text::{decimal, push_decimal};

verus! {

/// The closed set of failures that the validation and conversion pipeline reports.
#[derive(Debug, Clone, PartialEq, Eq)]
pub enum AppError {
    FileNotFound(String),
    InvalidPath(String),
    FileTooLarge { file_size_mb: u64, max_size_mb: u64 },
    InvalidHeicFile(String),
    ConversionFailed(String),
    SaveFailed(String),
    TempFileFailed(String),
    ConfigError(String),
    IoError(String),
}

pub type AppResult<T> = Result<T, AppError>;

/// The mathematical model of an `AppError`: its kind and the text it carries.
pub enum ErrorView {
    FileNotFound(Seq<char>),
    InvalidPath(Seq<char>),
    FileTooLarge { file_size_mb: u64, max_size_mb: u64 },
    InvalidHeicFile(Seq<char>),
    ConversionFailed(Seq<char>),
    SaveFailed(Seq<char>),
    TempFileFailed(Seq<char>),
    ConfigError(Seq<char>),
    IoError(Seq<char>),
}

impl View for AppError {
    type V = ErrorView;

    open spec fn view(&self) -> ErrorView {
        match self {
            AppError::FileNotFound(p) => ErrorView::FileNotFound(p@),
            AppError::InvalidPath(p) => ErrorView::InvalidPath(p@),
            AppError::FileTooLarge { file_size_mb, max_size_mb } => ErrorView::FileTooLarge {
                file_size_mb: *file_size_mb,
                max_size_mb: *max_size_mb,
            },
            AppError::InvalidHeicFile(r) => ErrorView::InvalidHeicFile(r@),
            AppError::ConversionFailed(r) => ErrorView::ConversionFailed(r@),
            AppError::SaveFailed(r) => ErrorView::SaveFailed(r@),
            AppError::TempFileFailed(r) => ErrorView::TempFileFailed(r@),
            AppError::ConfigError(r) => ErrorView::ConfigError(r@),
            AppError::IoError(r) => ErrorView::IoError(r@),
        }
    }
}

/// `r` is the failure `e`.
pub open spec fn fails_with<T>(r: AppResult<T>, e: ErrorView) -> bool {
    match r {
        Ok(_) => false,
        Err(x) => x@ == e,
    }
}

impl AppError {
    /// The user-facing text of the error.
    pub open spec fn message(&self) -> Seq<char> {
        match self {
            AppError::FileNotFound(p) => "File not found: "@ + p@,
            AppError::InvalidPath(p) => "Invalid file path: "@ + p@,
            AppError::FileTooLarge { file_size_mb, max_size_mb } => "File size "@ + decimal(
                *file_size_mb as nat,
            ) + "MB exceeds maximum "@ + decimal(*max_size_mb as nat) + "MB"@,
            AppError::InvalidHeicFile(r) => "Invalid HEIC/HEIF file: "@ + r@,
            AppError::ConversionFailed(r) => "Conversion failed: "@ + r@,
            AppError::SaveFailed(r) => "Save failed: "@ + r@,
            AppError::TempFileFailed(r) => "Temporary file operation failed: "@ + r@,
            AppError::ConfigError(r) => "Configuration error: "@ + r@,
            AppError::IoError(r) => "I/O error: "@ + r@,
        }
    }

    /// The user-facing text of the error.
    pub fn to_string(&self) -> (r: String)
        ensures
            r@ == self.message(),
    {
        let (prefix, detail): (&str, &String) = match self {
            AppError::FileNotFound(p) => ("File not found: ", p),
            AppError::InvalidPath(p) => ("Invalid file path: ", p),
            AppError::FileTooLarge { file_size_mb, max_size_mb } => {
                let mut s = String::from_str("File size ");
                push_decimal(&mut s, *file_size_mb);
                s.append("MB exceeds maximum ");
                push_decimal(&mut s, *max_size_mb);
                s.append("MB");
                return s;
            },
            AppError::InvalidHeicFile(r) => ("Invalid HEIC/HEIF file: ", r),
            AppError::ConversionFailed(r) => ("Conversion failed: ", r),
            AppError::SaveFailed(r) => ("Save failed: ", r),
            AppError::TempFileFailed(r) => ("Temporary file operation failed: ", r),
            AppError::ConfigError(r) => ("Configuration error: ", r),
            AppError::IoError(r) => ("I/O error: ", r),
        };
        let mut s = String::from_str(prefix);
        s.append(detail.as_str());
        s
    }
}

} // verus!
