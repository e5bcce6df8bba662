use vstd::prelude::*;

use crate::text::{decimal, decimal_string, parse_bounded, parse_unsigned};

verus! {

pub const DEFAULT_JPEG_QUALITY: u8 = 90;

pub const DEFAULT_MAX_FILE_SIZE_MB: u64 = 100;

pub const DEFAULT_WINDOW_WIDTH: u32 = 600;

pub const DEFAULT_WINDOW_HEIGHT: u32 = 500;

pub const DEFAULT_MAX_CONCURRENT_CONVERSIONS: u32 = 5;

pub const DEFAULT_TEMP_FILE_RETENTION_HOURS: u32 = 24;

pub const DEFAULT_CLEANUP_TEMP_FILES: bool = true;

/// Bytes in one megabyte.
pub const BYTES_PER_MB: u64 = 1048576;

/// Parameters of one conversion.
#[derive(Debug, Clone, Copy, PartialEq, Eq, Structural)]
pub struct ConversionConfig {
    pub jpeg_quality: u8,
    pub max_file_size_mb: u64,
}

#[derive(Debug, Clone, Copy, PartialEq, Eq, Structural)]
pub struct UiConfig {
    pub window_width: u32,
    pub window_height: u32,
    pub max_concurrent_conversions: u32,
}

#[derive(Debug, Clone, Copy, PartialEq, Eq, Structural)]
pub struct StorageConfig {
    pub cleanup_temp_files: bool,
    pub temp_file_retention_hours: u32,
}

#[derive(Debug, Clone, Copy, PartialEq, Eq, Structural)]
pub struct AppConfig {
    pub conversion: ConversionConfig,
    pub ui: UiConfig,
    pub storage: StorageConfig,
}

impl ConversionConfig {
    /// A quality in 1..=100 and a positive size ceiling.
    pub open spec fn wf(&self) -> bool {
        1 <= self.jpeg_quality <= 100 && self.max_file_size_mb > 0
    }
}

/// The quality after an environment override: a value that reads as an
/// integer in 1..=100 replaces `current`, anything else leaves it.
pub open spec fn quality_override(var: Option<String>, current: u8) -> u8 {
    match var {
        Some(t) => match parse_unsigned(t@, 255) {
            Some(v) => if 1 <= v <= 100 {
                v as u8
            } else {
                current
            },
            None => current,
        },
        None => current,
    }
}

/// The size ceiling after an environment override: a value that reads as a
/// positive 64-bit integer replaces `current`, anything else leaves it.
pub open spec fn size_override(var: Option<String>, current: u64) -> u64 {
    match var {
        Some(t) => match parse_unsigned(t@, u64::MAX as nat) {
            Some(v) => if v > 0 {
                v as u64
            } else {
                current
            },
            None => current,
        },
        None => current,
    }
}

impl AppConfig {
    pub open spec fn spec_default() -> AppConfig {
        AppConfig {
            conversion: ConversionConfig {
                jpeg_quality: DEFAULT_JPEG_QUALITY,
                max_file_size_mb: DEFAULT_MAX_FILE_SIZE_MB,
            },
            ui: UiConfig {
                window_width: DEFAULT_WINDOW_WIDTH,
                window_height: DEFAULT_WINDOW_HEIGHT,
                max_concurrent_conversions: DEFAULT_MAX_CONCURRENT_CONVERSIONS,
            },
            storage: StorageConfig {
                cleanup_temp_files: DEFAULT_CLEANUP_TEMP_FILES,
                temp_file_retention_hours: DEFAULT_TEMP_FILE_RETENTION_HOURS,
            },
        }
    }

    /// The settings that the layered sources give: a configuration file whose
    /// conversion group is well formed wins whole; otherwise the defaults,
    /// with each environment override that is valid applied.
    pub open spec fn spec_load(
        file_config: Option<AppConfig>,
        quality_var: Option<String>,
        size_var: Option<String>,
    ) -> AppConfig {
        match file_config {
            Some(c) if c.conversion.wf() => c,
            _ => {
                let d = AppConfig::spec_default();
                AppConfig {
                    conversion: ConversionConfig {
                        jpeg_quality: quality_override(quality_var, d.conversion.jpeg_quality),
                        max_file_size_mb: size_override(size_var, d.conversion.max_file_size_mb),
                    },
                    ..d
                }
            },
        }
    }

    /// Resolves the settings from what the configuration file held (`None`
    /// where it was absent or malformed) and the two environment variables
    /// for quality and size (`None` where unset). Never fails.
    pub fn load(
        file_config: Option<AppConfig>,
        quality_var: Option<String>,
        size_var: Option<String>,
    ) -> (r: AppConfig)
        ensures
            r == AppConfig::spec_load(file_config, quality_var, size_var),
            r.conversion.wf(),
    {
        if let Some(c) = file_config {
            if 1 <= c.conversion.jpeg_quality && c.conversion.jpeg_quality <= 100
                && c.conversion.max_file_size_mb > 0 {
                return c;
            }
        }
        let mut config = AppConfig::default();
        if let Some(t) = &quality_var {
            if let Some(q) = parse_bounded(t.as_str(), 255) {
                if q > 0 && q <= 100 {
                    config.conversion.jpeg_quality = q as u8;
                }
            }
        }
        if let Some(t) = &size_var {
            if let Some(s) = parse_bounded(t.as_str(), u64::MAX) {
                if s > 0 {
                    config.conversion.max_file_size_mb = s;
                }
            }
        }
        config
    }

    /// The size ceiling in bytes.
    pub fn max_file_size_bytes(&self) -> (r: u64)
        requires
            self.conversion.max_file_size_mb * BYTES_PER_MB <= u64::MAX,
        ensures
            r == self.conversion.max_file_size_mb * BYTES_PER_MB,
    {
        self.conversion.max_file_size_mb * 1024 * 1024
    }

    /// The JPEG quality in decimal.
    pub fn jpeg_quality_string(&self) -> (r: String)
        ensures
            r@ == decimal(self.conversion.jpeg_quality as nat),
    {
        decimal_string(self.conversion.jpeg_quality as u64)
    }
}

impl Default for AppConfig {
    fn default() -> (r: AppConfig)
        ensures
            r == AppConfig::spec_default(),
    {
        AppConfig {
            conversion: ConversionConfig {
                jpeg_quality: DEFAULT_JPEG_QUALITY,
                max_file_size_mb: DEFAULT_MAX_FILE_SIZE_MB,
            },
            ui: UiConfig {
                window_width: DEFAULT_WINDOW_WIDTH,
                window_height: DEFAULT_WINDOW_HEIGHT,
                max_concurrent_conversions: DEFAULT_MAX_CONCURRENT_CONVERSIONS,
            },
            storage: StorageConfig {
                cleanup_temp_files: DEFAULT_CLEANUP_TEMP_FILES,
                temp_file_retention_hours: DEFAULT_TEMP_FILE_RETENTION_HOURS,
            },
        }
    }
}

/// Loading depends on its sources alone: the same sources give the same
/// settings. The settings are always well formed, and settings once loaded,
/// when they stand in the configuration file, load back unchanged whatever
/// the environment holds.
pub proof fn lemma_load_idempotent(
    file_config: Option<AppConfig>,
    quality_var: Option<String>,
    size_var: Option<String>,
    other_quality_var: Option<String>,
    other_size_var: Option<String>,
)
    ensures
        AppConfig::spec_load(file_config, quality_var, size_var) == AppConfig::spec_load(
            file_config,
            quality_var,
            size_var,
        ),
        AppConfig::spec_load(file_config, quality_var, size_var).conversion.wf(),
        AppConfig::spec_load(
            Some(AppConfig::spec_load(file_config, quality_var, size_var)),
            other_quality_var,
            other_size_var,
        ) == AppConfig::spec_load(file_config, quality_var, size_var),
{
}

} // verus!
