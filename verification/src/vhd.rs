//! Virtual hard disk formats and types.

use vstd::prelude::*;
use crate::text::{chars_of, ends_with_seq, lowercase, to_lowercase};
use crate::wide::{to_wide, utf16_seq};

verus! {

/// VHD format.
#[derive(Debug, Clone, Copy, PartialEq, Eq, Structural)]
pub enum VhdFormat {
    /// Legacy VHD format (max 2TB)
    Vhd,
    /// Modern VHDX format (max 64TB)
    Vhdx,
}

/// The format of a file whose lowercased path is `lower`: VHDX when it ends
/// with ".vhdx", VHD otherwise.
pub open spec fn vhd_format_of_lowercase(lower: Seq<char>) -> VhdFormat {
    if ends_with_seq(lower, ".vhdx"@) {
        VhdFormat::Vhdx
    } else {
        VhdFormat::Vhd
    }
}

/// Whether `s` ends with `suffix`.
pub fn str_ends_with(s: &str, suffix: &str) -> (r: bool)
    ensures
        r == ends_with_seq(s@, suffix@),
{
    let cs = chars_of(s);
    let cf = chars_of(suffix);
    if cs.len() < cf.len() {
        return false;
    }
    let start = cs.len() - cf.len();
    let mut i: usize = 0;
    while i < cf.len()
        invariant
            cs@ == s@,
            cf@ == suffix@,
            start == cs@.len() - cf@.len(),
            cs@.len() >= cf@.len(),
            cs@.len() <= usize::MAX,
            i <= cf@.len(),
            forall|j: int| 0 <= j < i ==> cs@[start + j] == cf@[j],
        decreases cf@.len() - i,
    {
        if cs[start + i] != cf[i] {
            assert(s@.subrange(s@.len() - suffix@.len(), s@.len() as int)[i as int] != suffix@[i as int]);
            return false;
        }
        i = i + 1;
    }
    assert(s@.subrange(s@.len() - suffix@.len(), s@.len() as int) =~= suffix@);
    true
}

impl VhdFormat {
    /// The file extension for this format.
    pub fn extension(&self) -> (r: &'static str)
        ensures
            r@ == format_extension(*self),
    {
        match self {
            VhdFormat::Vhd => ".vhd",
            VhdFormat::Vhdx => ".vhdx",
        }
    }

    /// The format of a file path: VHDX when the lowercased path ends with
    /// ".vhdx", VHD otherwise.
    pub fn from_path(path: &str) -> (r: Self)
        ensures
            r == vhd_format_of_lowercase(lowercase(path@)),
    {
        let lower = to_lowercase(path);
        Self::from_lowercase_path(lower.as_str())
    }

    /// The format of an already lowercased file path.
    pub fn from_lowercase_path(lower: &str) -> (r: Self)
        ensures
            r == vhd_format_of_lowercase(lower@),
    {
        if str_ends_with(lower, ".vhdx") {
            VhdFormat::Vhdx
        } else {
            VhdFormat::Vhd
        }
    }

    /// The virtual storage device ID of this format.
    pub fn device_id(&self) -> (r: u32)
        ensures
            r == match *self {
                VhdFormat::Vhd => 2u32,
                VhdFormat::Vhdx => 3u32,
            },
    {
        match self {
            VhdFormat::Vhd => 2,
            VhdFormat::Vhdx => 3,
        }
    }
}

/// VHD type.
#[derive(Debug, Clone, Copy, PartialEq, Eq, Structural)]
pub enum VhdType {
    /// Fixed size - pre-allocated
    Fixed,
    /// Dynamic - grows as needed
    Dynamic,
    /// Differencing - based on parent VHD
    Differencing,
}

/// The type for a Windows API value: 2 fixed, 4 differencing, anything
/// else dynamic.
pub open spec fn vhd_type_of(value: u32) -> VhdType {
    if value == 2 {
        VhdType::Fixed
    } else if value == 4 {
        VhdType::Differencing
    } else {
        VhdType::Dynamic
    }
}

/// The Windows API value of each type.
pub open spec fn vhd_type_code(t: VhdType) -> u32 {
    match t {
        VhdType::Fixed => 2,
        VhdType::Dynamic => 3,
        VhdType::Differencing => 4,
    }
}

impl From<u32> for VhdType {
    fn from(value: u32) -> (r: Self) {
        if value == 2 {
            VhdType::Fixed
        } else if value == 3 {
            VhdType::Dynamic
        } else if value == 4 {
            VhdType::Differencing
        } else {
            VhdType::Dynamic
        }
    }
}

impl vstd::std_specs::convert::FromSpecImpl<u32> for VhdType {
    open spec fn obeys_from_spec() -> bool {
        true
    }

    open spec fn from_spec(v: u32) -> Self {
        vhd_type_of(v)
    }
}

impl VhdType {
    /// The Windows API value for this VHD type.
    pub fn to_api_value(&self) -> (r: u32)
        ensures
            r == vhd_type_code(*self),
    {
        match self {
            VhdType::Fixed => 2,
            VhdType::Dynamic => 3,
            VhdType::Differencing => 4,
        }
    }
}

/// Converting a type to its API value and back gives the type.
pub proof fn lemma_vhd_type_roundtrip(t: VhdType)
    ensures
        vhd_type_of(vhd_type_code(t)) == t,
{
}

/// A virtual hard disk file.
pub struct Vhd {
    path: String,
}

impl View for Vhd {
    type V = Seq<char>;

    closed spec fn view(&self) -> Seq<char> {
        self.path@
    }
}

impl Vhd {
    /// A handle for the VHD file at `path`.
    pub fn new(path: String) -> (r: Self)
        ensures
            r@ == path@,
    {
        Vhd { path }
    }

    /// The VHD file path.
    pub fn path(&self) -> (r: &str)
        ensures
            r@ == self@,
    {
        self.path.as_str()
    }

    /// The VHD format, from the file's extension.
    pub fn format(&self) -> (r: VhdFormat)
        ensures
            r == vhd_format_of_lowercase(lowercase(self@)),
    {
        VhdFormat::from_path(self.path.as_str())
    }
}

/// The file extension of each format.
pub open spec fn format_extension(f: VhdFormat) -> Seq<char> {
    match f {
        VhdFormat::Vhd => ".vhd"@,
        VhdFormat::Vhdx => ".vhdx"@,
    }
}

/// A lowercased path that ends with a format's extension is detected as
/// that format, whatever comes before the extension.
pub proof fn lemma_extension_detected(stem: Seq<char>, f: VhdFormat)
    ensures
        vhd_format_of_lowercase(stem + format_extension(f)) == f,
{
    reveal_strlit(".vhd");
    reveal_strlit(".vhdx");
    let p = stem + format_extension(f);
    let x = ".vhdx"@;
    match f {
        VhdFormat::Vhdx => {
            assert(p.subrange(p.len() - x.len(), p.len() as int) =~= x);
        },
        VhdFormat::Vhd => {
            if p.len() >= x.len() {
                assert(p[p.len() - 1] == 'd');
                assert(p.subrange(p.len() - x.len(), p.len() as int)[4] == 'd');
                assert(x[4] == 'x');
            }
        },
    }
}

/// What creating a virtual disk asks of the storage API: the device type,
/// the NUL-terminated UTF-16 path, and the sizes.
#[derive(Debug, Clone)]
pub struct VhdCreateParameters {
    pub device_id: u32,
    pub path_wide: Vec<u16>,
    pub maximum_size: u64,
    /// 0 asks for the default block size.
    pub block_size_in_bytes: u32,
    pub sector_size_in_bytes: u32,
}

/// The parameters for creating a disk at `path` of `size_bytes` bytes: the
/// format follows the path's extension, the block size defaults to 0 (the
/// API's default) and sectors are 512 bytes.
pub fn create_vhd_parameters(path: &str, size_bytes: u64, block_size_bytes: Option<u32>) -> (r:
    VhdCreateParameters)
    ensures
        r.device_id == (match vhd_format_of_lowercase(lowercase(path@)) {
            VhdFormat::Vhd => 2u32,
            VhdFormat::Vhdx => 3u32,
        }),
        r.path_wide@ == utf16_seq(path@).push(0),
        r.maximum_size == size_bytes,
        r.block_size_in_bytes == (match block_size_bytes {
            Some(b) => b,
            None => 0,
        }),
        r.sector_size_in_bytes == 512,
{
    let format = VhdFormat::from_path(path);
    VhdCreateParameters {
        device_id: format.device_id(),
        path_wide: to_wide(path),
        maximum_size: size_bytes,
        block_size_in_bytes: match block_size_bytes {
            Some(b) => b,
            None => 0,
        },
        sector_size_in_bytes: 512,
    }
}

} // verus!
