use vstd::prelude::*;

use crate::errors::{fails_with, AppError, AppResult, ErrorView};
use crate::text::{decimal, decimal_string, same_text};
use crate::config::BYTES_PER_MB;

verus! {

/// The extension of the path `p`, as the standard library's `Path::extension` gives it.
pub uninterp spec fn extension_of(p: Seq<char>) -> Option<Seq<char>>;

/// The lower-case form of `s`, as the standard library's `str::to_lowercase` gives it.
pub uninterp spec fn lower_of(s: Seq<char>) -> Seq<char>;

/// Relies on `std::path::Path::extension`: the result is the extension of the
/// path, a function of the path's text alone.
#[verifier::external_body]
fn path_extension(p: &str) -> (r: Option<String>)
    ensures
        match r {
            Some(e) => extension_of(p@) == Some(e@),
            None => extension_of(p@) is None,
        },
{
    match std::path::Path::new(p).extension() {
        Some(e) => e.to_str().map(String::from),
        None => None,
    }
}

/// Relies on `str::to_lowercase`: the result depends on the characters alone.
#[verifier::external_body]
fn lowercase(s: &str) -> (r: String)
    ensures
        r@ == lower_of(s@),
{
    s.to_lowercase()
}

/// What a filesystem lookup of a candidate path found.
#[derive(Debug, Clone, PartialEq, Eq)]
pub enum PathLookup {
    /// The path could not be canonicalized (absent, no permission, I/O failure).
    Unresolvable,
    /// The canonical path, and whether it names a regular file.
    Resolved { canonical: String, is_file: bool },
}

pub struct ValidationHelper;

pub open spec fn supported_extension(e: Seq<char>) -> bool {
    e == "heic"@ || e == "heif"@
}

/// The lower-cased extension of `p`, empty where it has none.
pub open spec fn lowered_extension(p: Seq<char>) -> Seq<char> {
    match extension_of(p) {
        Some(e) => lower_of(e),
        None => lower_of(Seq::empty()),
    }
}

pub open spec fn unsupported_extension_message(e: Seq<char>) -> Seq<char> {
    "Unsupported extension '"@ + e + "'. Supported: heic, heif"@
}

pub open spec fn is_dangerous_char(c: char) -> bool {
    c == '/' || c == '\\' || c == ':' || c == '*' || c == '?' || c == '"' || c == '<' || c
        == '>' || c == '|'
}

pub open spec fn has_dangerous_char(s: Seq<char>) -> bool {
    exists|i: int| 0 <= i < s.len() && is_dangerous_char(#[trigger] s[i])
}

/// The text holds two consecutive dots.
pub open spec fn has_parent_ref(s: Seq<char>) -> bool {
    exists|i: int| 0 <= i && i + 1 < s.len() && #[trigger] s[i] == '.' && s[i + 1] == '.'
}

/// What checking a temporary file's name gives, for a name of the
/// characters `s` and `byte_len` bytes.
pub open spec fn file_name_outcome(s: Seq<char>, byte_len: usize, r: AppResult<()>) -> bool {
    if s.len() == 0 {
        fails_with(r, ErrorView::InvalidPath("File name cannot be empty"@))
    } else if has_dangerous_char(s) {
        fails_with(r, ErrorView::InvalidPath("File name contains invalid characters"@))
    } else if byte_len > 255 {
        fails_with(r, ErrorView::InvalidPath("File name too long (max 255 characters)"@))
    } else {
        r is Ok
    }
}

/// What validating the untrusted path `p` gives when its lookup found `lookup`.
pub open spec fn path_safety_outcome(p: Seq<char>, lookup: PathLookup, r: AppResult<String>) -> bool {
    if has_parent_ref(p) {
        fails_with(r, ErrorView::InvalidPath("Path traversal not allowed"@))
    } else {
        match lookup {
            PathLookup::Unresolvable => fails_with(r, ErrorView::InvalidPath("Cannot resolve path"@)),
            PathLookup::Resolved { canonical, is_file } => if is_file {
                r matches Ok(c) && c@ == canonical@
            } else {
                fails_with(r, ErrorView::FileNotFound(p))
            },
        }
    }
}

/// A path that does not lead to an existing regular file never validates:
/// the outcome is a `FileNotFound` or an `InvalidPath` error. A path with
/// two consecutive dots is an `InvalidPath` error whatever the lookup found.
pub proof fn lemma_path_safety_rejects(p: Seq<char>, lookup: PathLookup, r: AppResult<String>)
    requires
        path_safety_outcome(p, lookup, r),
    ensures
        !(lookup matches PathLookup::Resolved { is_file: true, .. }) ==> (r matches Err(e) && (
        e@ is FileNotFound || e@ is InvalidPath)),
        has_parent_ref(p) ==> (r matches Err(e) && e@ is InvalidPath),
{
}

/// The signature marker at offset 4: `ftyp`.
pub open spec fn ftyp_marker() -> Seq<u8> {
    seq![102u8, 116u8, 121u8, 112u8]
}

/// The brand codes of HEIC/HEIF containers: `heic`, `heix`, `hevc`, `hevx`, `mif1`.
pub open spec fn heic_brands() -> Seq<Seq<u8>> {
    seq![
        seq![104u8, 101u8, 105u8, 99u8],
        seq![104u8, 101u8, 105u8, 120u8],
        seq![104u8, 101u8, 118u8, 99u8],
        seq![104u8, 101u8, 118u8, 120u8],
        seq![109u8, 105u8, 102u8, 49u8],
    ]
}

/// `slot` starts with `code`.
pub open spec fn starts_with(slot: Seq<u8>, code: Seq<u8>) -> bool {
    code.len() <= slot.len() && slot.take(code.len() as int) == code
}

pub open spec fn known_brand(slot: Seq<u8>) -> bool {
    exists|k: int| 0 <= k < heic_brands().len() && starts_with(slot, #[trigger] heic_brands()[k])
}

/// The first twelve bytes are a HEIC/HEIF container signature.
pub open spec fn heic_signature(h: Seq<u8>) -> bool {
    h.len() >= 12 && h.subrange(4, 8) == ftyp_marker() && known_brand(h.subrange(8, 12))
}

/// A header with a valid signature passes the check, and changing any one
/// byte of the `ftyp` marker or of the brand slot makes it fail, unless the
/// change turns the brand into another of the known brands (`heic` and
/// `heix`, for one, differ in a single byte).
pub proof fn lemma_signature_single_byte_change(h: Seq<u8>, i: int, b: u8)
    requires
        heic_signature(h),
        4 <= i < 12,
        b != h[i],
        8 <= i ==> !known_brand(h.update(i, b).subrange(8, 12)),
    ensures
        !heic_signature(h.update(i, b)),
{
    let m = h.update(i, b);
    if i < 8 {
        assert(m.subrange(4, 8)[i - 4] != ftyp_marker()[i - 4]) by {
            assert(h.subrange(4, 8)[i - 4] == h[i]);
        }
    }
}

/// The text holds two consecutive dots.
pub fn has_parent_reference(path: &str) -> (r: bool)
    ensures
        r == has_parent_ref(path@),
{
    let n = path.unicode_len();
    if n < 2 {
        return false;
    }
    let mut i: usize = 0;
    while i + 1 < n
        invariant
            n == path@.len(),
            n >= 2,
            i + 1 <= n,
            forall|j: int| 0 <= j < i ==> !(#[trigger] path@[j] == '.' && path@[j + 1] == '.'),
        decreases n - i,
    {
        if path.get_char(i) == '.' && path.get_char(i + 1) == '.' {
            return true;
        }
        i = i + 1;
    }
    false
}

/// The byte code of brand `k` of `heic_brands`.
fn heic_brand(k: usize) -> (r: Vec<u8>)
    requires
        k < 5,
    ensures
        r@ == heic_brands()[k as int],
{
    let r = match k {
        0 => vec![104u8, 101u8, 105u8, 99u8],
        1 => vec![104u8, 101u8, 105u8, 120u8],
        2 => vec![104u8, 101u8, 118u8, 99u8],
        3 => vec![104u8, 101u8, 118u8, 120u8],
        _ => vec![109u8, 105u8, 102u8, 49u8],
    };
    assert(r@ == heic_brands()[k as int]);
    r
}

/// The brand slot, bytes 8 to 11 of `header`, starts with `code`.
fn brand_starts_with(header: &[u8], code: &Vec<u8>) -> (r: bool)
    requires
        header@.len() >= 12,
    ensures
        r == starts_with(header@.subrange(8, 12), code@),
{
    let ghost slot = header@.subrange(8, 12);
    if code.len() > 4 {
        return false;
    }
    let mut j: usize = 0;
    while j < code.len()
        invariant
            code@.len() <= 4,
            header@.len() >= 12,
            j <= code@.len(),
            slot == header@.subrange(8, 12),
            forall|t: int| 0 <= t < j ==> slot[t] == code@[t],
        decreases code@.len() - j,
    {
        if header[8 + j] != code[j] {
            assert(slot[j as int] == header@[8 + j]);
            assert(slot.take(code@.len() as int)[j as int] != code@[j as int]);
            return false;
        }
        j = j + 1;
    }
    assert(slot.take(code@.len() as int) =~= code@);
    true
}

/// Checks the first twelve bytes of a candidate file: `ftyp` at offset 4 and a
/// known HEIC/HEIF brand at offset 8. `header` holds what could be read of the
/// file's start; fewer than twelve bytes is a rejection.
pub fn validate_heic_header(header: &[u8]) -> (r: AppResult<()>)
    ensures
        r is Ok <==> heic_signature(header@),
        header@.len() < 12 ==> fails_with(
            r,
            ErrorView::InvalidHeicFile("File too small or unreadable"@),
        ),
        header@.len() >= 12 && !heic_signature(header@) ==> fails_with(
            r,
            ErrorView::InvalidHeicFile("Invalid HEIC/HEIF magic bytes"@),
        ),
{
    if header.len() < 12 {
        return Err(AppError::InvalidHeicFile(String::from_str("File too small or unreadable")));
    }
    let ghost h = header@;
    if header[4] == 102u8 && header[5] == 116u8 && header[6] == 121u8 && header[7] == 112u8 {
        assert(h.subrange(4, 8) =~= ftyp_marker());
        let mut k: usize = 0;
        while k < 5
            invariant
                k <= 5,
                h == header@,
                h.len() >= 12,
                h.subrange(4, 8) == ftyp_marker(),
                forall|t: int| 0 <= t < k ==> !starts_with(h.subrange(8, 12), #[trigger] heic_brands()[t]),
            decreases 5 - k,
        {
            let code = heic_brand(k);
            if brand_starts_with(header, &code) {
                assert(known_brand(h.subrange(8, 12)) && heic_signature(h)) by {
                    assert(starts_with(h.subrange(8, 12), heic_brands()[k as int]));
                }
                return Ok(());
            }
            k = k + 1;
        }
    } else {
        assert(h.subrange(4, 8) != ftyp_marker()) by {
            if h.subrange(4, 8) == ftyp_marker() {
                assert(h.subrange(4, 8)[0] == h[4]);
                assert(h.subrange(4, 8)[1] == h[5]);
                assert(h.subrange(4, 8)[2] == h[6]);
                assert(h.subrange(4, 8)[3] == h[7]);
            }
        }
    }
    Err(AppError::InvalidHeicFile(String::from_str("Invalid HEIC/HEIF magic bytes")))
}

impl ValidationHelper {
    /// The lower-cased extension must be one of the supported ones.
    pub fn check_extension(extension: &str) -> (r: AppResult<()>)
        ensures
            r is Ok <==> supported_extension(extension@),
            !supported_extension(extension@) ==> fails_with(
                r,
                ErrorView::InvalidHeicFile(unsupported_extension_message(extension@)),
            ),
    {
        if same_text(extension, "heic") || same_text(extension, "heif") {
            Ok(())
        } else {
            let mut m = String::from_str("Unsupported extension '");
            m.append(extension);
            m.append("'. Supported: heic, heif");
            Err(AppError::InvalidHeicFile(m))
        }
    }

    /// The lower-cased extension of `file_path` must be `heic` or `heif`.
    pub fn validate_extension(file_path: &str) -> (r: AppResult<()>)
        ensures
            r is Ok <==> supported_extension(lowered_extension(file_path@)),
            !supported_extension(lowered_extension(file_path@)) ==> fails_with(
                r,
                ErrorView::InvalidHeicFile(
                    unsupported_extension_message(lowered_extension(file_path@)),
                ),
            ),
    {
        let extension = match path_extension(file_path) {
            Some(e) => lowercase(e.as_str()),
            None => lowercase(""),
        };
        assert(extension@ == lowered_extension(file_path@)) by {
            reveal_strlit("");
            assert(""@ =~= Seq::<char>::empty());
        }
        ValidationHelper::check_extension(extension.as_str())
    }

    /// A file larger than `max_size` bytes is rejected, with both sizes in whole megabytes.
    pub fn validate_file_size(file_size: u64, max_size: u64) -> (r: AppResult<()>)
        ensures
            r is Ok <==> file_size <= max_size,
            file_size > max_size ==> fails_with(
                r,
                ErrorView::FileTooLarge {
                    file_size_mb: file_size / BYTES_PER_MB,
                    max_size_mb: max_size / BYTES_PER_MB,
                },
            ),
    {
        if file_size > max_size {
            return Err(
                AppError::FileTooLarge {
                    file_size_mb: file_size / (1024 * 1024),
                    max_size_mb: max_size / (1024 * 1024),
                },
            );
        }
        Ok(())
    }

    /// A JPEG quality must lie in 1..=100.
    pub fn validate_jpeg_quality(quality: u8) -> (r: AppResult<()>)
        ensures
            r is Ok <==> 1 <= quality <= 100,
            !(1 <= quality <= 100) ==> fails_with(
                r,
                ErrorView::ConfigError(
                    "JPEG quality must be between 1-100, got: "@ + decimal(quality as nat),
                ),
            ),
    {
        if quality == 0 || quality > 100 {
            let mut m = String::from_str("JPEG quality must be between 1-100, got: ");
            let q = decimal_string(quality as u64);
            m.append(q.as_str());
            return Err(AppError::ConfigError(m));
        }
        Ok(())
    }

    /// A file name for a temporary file: not empty, free of path and shell
    /// special characters, at most 255 bytes long.
    pub fn validate_file_name(file_name: &str) -> (r: AppResult<()>)
        ensures
            file_name_outcome(file_name@, file_name.len(), r),
    {
        if file_name.is_empty() {
            return Err(AppError::InvalidPath(String::from_str("File name cannot be empty")));
        }
        let n = file_name.unicode_len();
        let mut i: usize = 0;
        while i < n
            invariant
                n == file_name@.len(),
                i <= n,
                forall|j: int| 0 <= j < i ==> !is_dangerous_char(#[trigger] file_name@[j]),
            decreases n - i,
        {
            let c = file_name.get_char(i);
            if c == '/' || c == '\\' || c == ':' || c == '*' || c == '?' || c == '"' || c == '<'
                || c == '>' || c == '|' {
                return Err(
                    AppError::InvalidPath(String::from_str("File name contains invalid characters")),
                );
            }
            i = i + 1;
        }
        if file_name.len() > 255 {
            return Err(
                AppError::InvalidPath(String::from_str("File name too long (max 255 characters)")),
            );
        }
        Ok(())
    }

    /// Validates an untrusted path: text with two consecutive dots is
    /// refused before any lookup; a path that could not be canonicalized is
    /// invalid; one whose canonical form is not a regular file is not found,
    /// reported with the path as given. Otherwise the canonical path.
    pub fn validate_path_safety(path: &str, lookup: &PathLookup) -> (r: AppResult<String>)
        ensures
            path_safety_outcome(path@, *lookup, r),
    {
        if has_parent_reference(path) {
            return Err(AppError::InvalidPath(String::from_str("Path traversal not allowed")));
        }
        match lookup {
            PathLookup::Unresolvable => Err(
                AppError::InvalidPath(String::from_str("Cannot resolve path")),
            ),
            PathLookup::Resolved { canonical, is_file } => {
                if !*is_file {
                    return Err(AppError::FileNotFound(path.to_owned()));
                }
                Ok(canonical.clone())
            },
        }
    }
}

} // verus!
