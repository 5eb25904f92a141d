//! Classifying an install payload: the resource-kind tag is sniffed from
//! the payload's magic bytes and, where the generic container format is
//! ambiguous, refined by the filename extension.

use vstd::prelude::*;

verus! {

/// The resource-kind tag of an install payload.
#[derive(Debug, Clone, Copy, PartialEq, Eq, Structural)]
pub enum FileType {
    /// No known magic bytes.
    Unknown,
    /// A generic zip container.
    Zip,
    /// A zip container carrying an app bundle, told apart by its filename
    /// extension.
    Abp,
}

/// Whether the payload opens with the zip local-file magic bytes.
pub open spec fn is_zip_magic(b: Seq<u8>) -> bool {
    b.len() >= 4 && b[0] == 0x50 && b[1] == 0x4b && b[2] == 0x03 && b[3] == 0x04
}

/// Whether the filename's last dot-separated segment is `abp`: the name
/// ends in `.abp`, or is the bare segment `abp`.
pub open spec fn has_abp_ext(nm: Seq<char>) -> bool {
    (nm.len() >= 4 && nm[nm.len() - 4] == '.' && nm[nm.len() - 3] == 'a' && nm[nm.len() - 2]
        == 'b' && nm[nm.len() - 1] == 'p') || (nm.len() == 3 && nm[0] == 'a' && nm[1] == 'b'
        && nm[2] == 'p')
}

/// The tag a payload classifies to: a zip container, refined to an app
/// bundle by the filename hint; anything without the magic is unknown.
pub open spec fn classify_of(b: Seq<u8>, nm: Seq<char>) -> FileType {
    if is_zip_magic(b) {
        if has_abp_ext(nm) {
            FileType::Abp
        } else {
            FileType::Zip
        }
    } else {
        FileType::Unknown
    }
}

/// Whether the filename's last dot-separated segment is `abp`.
pub fn name_has_abp_ext(name: &str) -> (r: bool)
    ensures
        r == has_abp_ext(name@),
{
    let n = name.unicode_len();
    if n >= 4 {
        name.get_char(n - 4) == '.' && name.get_char(n - 3) == 'a' && name.get_char(n - 2) == 'b'
            && name.get_char(n - 1) == 'p'
    } else if n == 3 {
        name.get_char(0) == 'a' && name.get_char(1) == 'b' && name.get_char(2) == 'p'
    } else {
        false
    }
}

/// Classifies an install payload from its bytes and its filename hint.
pub fn miwear_get_file_type(data: &Vec<u8>, name: &str) -> (r: FileType)
    ensures
        r == classify_of(data@, name@),
{
    let zip = data.len() >= 4 && data[0] == 0x50 && data[1] == 0x4b && data[2] == 0x03 && data[3]
        == 0x04;
    if zip {
        if name_has_abp_ext(name) {
            FileType::Abp
        } else {
            FileType::Zip
        }
    } else {
        FileType::Unknown
    }
}

} // verus!
