use heic_convert::errors::AppError;
use heic_convert::validation::{validate_heic_header, PathLookup, ValidationHelper};

fn resolved(canonical: &str, is_file: bool) -> PathLookup {
    PathLookup::Resolved { canonical: canonical.to_string(), is_file }
}

fn header(brand: &[u8; 4]) -> Vec<u8> {
    let mut h = vec![0u8, 0, 0, 24];
    h.extend_from_slice(b"ftyp");
    h.extend_from_slice(brand);
    h
}

#[test]
fn traversal_is_refused_whatever_the_lookup() {
    let expected = Err(AppError::InvalidPath("Path traversal not allowed".to_string()));
    assert_eq!(
        ValidationHelper::validate_path_safety("/tmp/../tmp/a.heic", &resolved("/tmp/a.heic", true)),
        expected
    );
    assert_eq!(ValidationHelper::validate_path_safety("..", &PathLookup::Unresolvable), expected);
    assert_eq!(ValidationHelper::validate_path_safety("a..b.heic", &resolved("/a..b.heic", true)), expected);
}

#[test]
fn unresolvable_path_is_invalid() {
    assert_eq!(
        ValidationHelper::validate_path_safety("/no/such/file.heic", &PathLookup::Unresolvable),
        Err(AppError::InvalidPath("Cannot resolve path".to_string()))
    );
}

#[test]
fn directory_is_not_found_with_original_path() {
    assert_eq!(
        ValidationHelper::validate_path_safety("./pics", &resolved("/home/u/pics", false)),
        Err(AppError::FileNotFound("./pics".to_string()))
    );
}

#[test]
fn regular_file_gives_canonical_path() {
    assert_eq!(
        ValidationHelper::validate_path_safety("./a.heic", &resolved("/home/u/a.heic", true)),
        Ok("/home/u/a.heic".to_string())
    );
    assert_eq!(
        ValidationHelper::validate_path_safety("./.hidden/a.heic", &resolved("/h/.hidden/a.heic", true)),
        Ok("/h/.hidden/a.heic".to_string())
    );
}

#[test]
fn size_limit_boundary() {
    let max = 100 * 1024 * 1024;
    assert_eq!(ValidationHelper::validate_file_size(max, max), Ok(()));
    assert_eq!(ValidationHelper::validate_file_size(0, max), Ok(()));
    assert_eq!(
        ValidationHelper::validate_file_size(max + 1, max),
        Err(AppError::FileTooLarge { file_size_mb: 100, max_size_mb: 100 })
    );
    assert_eq!(
        ValidationHelper::validate_file_size(250 * 1024 * 1024 + 5, max),
        Err(AppError::FileTooLarge { file_size_mb: 250, max_size_mb: 100 })
    );
}

#[test]
fn extension_accepts_heic_and_heif_in_any_case() {
    assert_eq!(ValidationHelper::validate_extension("/p/a.heic"), Ok(()));
    assert_eq!(ValidationHelper::validate_extension("/p/a.heif"), Ok(()));
    assert_eq!(ValidationHelper::validate_extension("/p/IMG_1.HEIC"), Ok(()));
    assert_eq!(ValidationHelper::validate_extension("/p/b.HeIf"), Ok(()));
}

#[test]
fn extension_rejections() {
    assert_eq!(
        ValidationHelper::validate_extension("/p/a.JPG"),
        Err(AppError::InvalidHeicFile("Unsupported extension 'jpg'. Supported: heic, heif".to_string()))
    );
    assert_eq!(
        ValidationHelper::validate_extension("/p/noext"),
        Err(AppError::InvalidHeicFile("Unsupported extension ''. Supported: heic, heif".to_string()))
    );
    assert_eq!(
        ValidationHelper::validate_extension("/p/.heic"),
        Err(AppError::InvalidHeicFile("Unsupported extension ''. Supported: heic, heif".to_string()))
    );
}

#[test]
fn check_extension_on_lowered_text() {
    assert_eq!(ValidationHelper::check_extension("heic"), Ok(()));
    assert_eq!(ValidationHelper::check_extension("heif"), Ok(()));
    assert_eq!(
        ValidationHelper::check_extension("HEIC"),
        Err(AppError::InvalidHeicFile("Unsupported extension 'HEIC'. Supported: heic, heif".to_string()))
    );
}

#[test]
fn short_headers_are_too_small() {
    let full = header(b"heic");
    for n in 0..12 {
        assert_eq!(
            validate_heic_header(&full[..n]),
            Err(AppError::InvalidHeicFile("File too small or unreadable".to_string()))
        );
    }
}

#[test]
fn known_brands_pass() {
    for brand in [b"heic", b"heix", b"hevc", b"hevx", b"mif1"] {
        assert_eq!(validate_heic_header(&header(brand)), Ok(()));
    }
    let mut longer = header(b"mif1");
    longer.extend_from_slice(b"trailing bytes");
    assert_eq!(validate_heic_header(&longer), Ok(()));
}

#[test]
fn single_byte_changes_are_rejected() {
    let bad = Err(AppError::InvalidHeicFile("Invalid HEIC/HEIF magic bytes".to_string()));
    for brand in [b"heic", b"heix", b"hevc", b"hevx", b"mif1"] {
        for i in 4..8 {
            let mut h = header(brand);
            h[i] ^= 0x20;
            assert_eq!(validate_heic_header(&h), bad);
        }
    }
    for i in 8..12 {
        let mut h = header(b"mif1");
        h[i] = b'z';
        assert_eq!(validate_heic_header(&h), bad);
    }
    assert_eq!(validate_heic_header(&header(b"avif")), bad);
    assert_eq!(validate_heic_header(&[0u8; 12]), bad);
}

#[test]
fn file_name_rules() {
    assert_eq!(ValidationHelper::validate_file_name("photo.heic"), Ok(()));
    assert_eq!(
        ValidationHelper::validate_file_name(""),
        Err(AppError::InvalidPath("File name cannot be empty".to_string()))
    );
    for bad in ["a/b", "a\\b", "c:", "x*", "q?", "\"", "<", ">", "p|q"] {
        assert_eq!(
            ValidationHelper::validate_file_name(bad),
            Err(AppError::InvalidPath("File name contains invalid characters".to_string()))
        );
    }
    assert_eq!(ValidationHelper::validate_file_name(&"a".repeat(255)), Ok(()));
    assert_eq!(
        ValidationHelper::validate_file_name(&"a".repeat(256)),
        Err(AppError::InvalidPath("File name too long (max 255 characters)".to_string()))
    );
    // 128 two-byte characters: 256 bytes
    assert_eq!(
        ValidationHelper::validate_file_name(&"é".repeat(128)),
        Err(AppError::InvalidPath("File name too long (max 255 characters)".to_string()))
    );
}
