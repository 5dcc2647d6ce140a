//! Archive kinds, told by file name, and which of them are unpacked on
//! arrival.

use vstd::prelude::*;
use vstd::string::StrSliceExecFns;

verus! {

/// Kind of archive.
#[derive(Debug, Clone, Copy, PartialEq, Eq, Structural)]
pub enum ArchiveType {
    TarLz4,
    TarZst,
    Lz4,
    Tar,
    TarGz,
    Zip,
    Rar,
    SevenZip,
    Unknown,
}

/// What unpacking an archive produced.
pub struct ExtractResult {
    pub files_count: usize,
    pub total_size: u64,
}

/// An ASCII capital as its small letter; any other character unchanged.
pub open spec fn lower(c: char) -> char {
    if 'A' <= c && c <= 'Z' {
        ((c as u8 + 32) as u8) as char
    } else {
        c
    }
}

/// Whether `name` ends with `suffix` when ASCII capitals in `name` count as
/// small letters.
pub open spec fn ends_with_ci(name: Seq<char>, suffix: Seq<char>) -> bool {
    name.len() >= suffix.len() && forall|i: int|
        0 <= i < suffix.len() ==> lower(#[trigger] name[name.len() - suffix.len() + i])
            == suffix[i]
}

/// The kind of archive a file name announces, by its suffix. The first
/// suffix that matches, in this order, decides.
pub open spec fn archive_type_of(name: Seq<char>) -> ArchiveType {
    if ends_with_ci(name, ".tar.lz4"@) || ends_with_ci(name, ".tlz4"@) {
        ArchiveType::TarLz4
    } else if ends_with_ci(name, ".tar.zst"@) || ends_with_ci(name, ".tzst"@) {
        ArchiveType::TarZst
    } else if ends_with_ci(name, ".lz4"@) {
        ArchiveType::Lz4
    } else if ends_with_ci(name, ".tar.gz"@) || ends_with_ci(name, ".tgz"@) {
        ArchiveType::TarGz
    } else if ends_with_ci(name, ".tar"@) {
        ArchiveType::Tar
    } else if ends_with_ci(name, ".zip"@) {
        ArchiveType::Zip
    } else if ends_with_ci(name, ".rar"@) {
        ArchiveType::Rar
    } else if ends_with_ci(name, ".7z"@) {
        ArchiveType::SevenZip
    } else {
        ArchiveType::Unknown
    }
}

/// An ASCII capital as its small letter; any other character unchanged.
pub fn to_lower(c: char) -> (r: char)
    ensures
        r == lower(c),
{
    if 'A' <= c && c <= 'Z' {
        ((c as u8) + 32) as char
    } else {
        c
    }
}

fn has_suffix(name: &str, suffix: &str) -> (r: bool)
    ensures
        r == ends_with_ci(name@, suffix@),
{
    let n = name.unicode_len();
    let m = suffix.unicode_len();
    if n < m {
        return false;
    }
    let off: usize = n - m;
    let mut i: usize = 0;
    while i < m
        invariant
            i <= m,
            off + m == n,
            n == name@.len(),
            m == suffix@.len(),
            forall|j: int| 0 <= j < i ==> lower(#[trigger] name@[off + j]) == suffix@[j],
        decreases m - i,
    {
        let a = to_lower(name.get_char(off + i));
        let b = suffix.get_char(i);
        if a != b {
            assert(lower(name@[name@.len() - suffix@.len() + i]) != suffix@[i as int]);
            return false;
        }
        i += 1;
    }
    true
}

impl ArchiveType {
    /// Tells the kind of archive from the file name, ignoring ASCII case.
    pub fn from_filename(filename: &str) -> (t: Self)
        ensures
            t == archive_type_of(filename@),
    {
        let name = filename;
        if has_suffix(name, ".tar.lz4") || has_suffix(name, ".tlz4") {
            ArchiveType::TarLz4
        } else if has_suffix(name, ".tar.zst") || has_suffix(name, ".tzst") {
            ArchiveType::TarZst
        } else if has_suffix(name, ".lz4") {
            ArchiveType::Lz4
        } else if has_suffix(name, ".tar.gz") || has_suffix(name, ".tgz") {
            ArchiveType::TarGz
        } else if has_suffix(name, ".tar") {
            ArchiveType::Tar
        } else if has_suffix(name, ".zip") {
            ArchiveType::Zip
        } else if has_suffix(name, ".rar") {
            ArchiveType::Rar
        } else if has_suffix(name, ".7z") {
            ArchiveType::SevenZip
        } else {
            ArchiveType::Unknown
        }
    }

    /// The name of the format as text.
    pub open spec fn name_text(self) -> Seq<char> {
        match self {
            ArchiveType::TarLz4 => "tar.lz4"@,
            ArchiveType::TarZst => "tar.zst"@,
            ArchiveType::Lz4 => "lz4"@,
            ArchiveType::Tar => "tar"@,
            ArchiveType::TarGz => "tar.gz"@,
            ArchiveType::Zip => "zip"@,
            ArchiveType::Rar => "rar"@,
            ArchiveType::SevenZip => "7z"@,
            ArchiveType::Unknown => "unknown"@,
        }
    }

    /// The name of the format.
    pub fn name(&self) -> (r: &'static str)
        ensures
            r@ == self.name_text(),
    {
        match self {
            ArchiveType::TarLz4 => "tar.lz4",
            ArchiveType::TarZst => "tar.zst",
            ArchiveType::Lz4 => "lz4",
            ArchiveType::Tar => "tar",
            ArchiveType::TarGz => "tar.gz",
            ArchiveType::Zip => "zip",
            ArchiveType::Rar => "rar",
            ArchiveType::SevenZip => "7z",
            ArchiveType::Unknown => "unknown",
        }
    }

    /// Whether archives of this kind are a tar stream inside a frame codec.
    pub open spec fn streamable(self) -> bool {
        self == ArchiveType::TarLz4 || self == ArchiveType::TarZst
    }

    /// Whether archives of this kind are a tar stream inside a frame codec,
    /// the only kind that is unpacked while it arrives.
    pub fn is_streamable(&self) -> (r: bool)
        ensures
            r == self.streamable(),
    {
        match self {
            ArchiveType::TarLz4 => true,
            ArchiveType::TarZst => true,
            _ => false,
        }
    }
}

/// Which kinds of archive are unpacked automatically.
#[derive(Debug, Clone, Copy)]
pub struct ExtractOptions {
    pub tar_lz4: bool,
    pub lz4: bool,
    pub tar: bool,
    pub zip: bool,
    pub rar: bool,
}

impl Default for ExtractOptions {
    fn default() -> (o: Self)
        ensures
            !o.tar_lz4 && !o.lz4 && !o.tar && !o.zip && !o.rar,
    {
        ExtractOptions { tar_lz4: false, lz4: false, tar: false, zip: false, rar: false }
    }
}

impl ExtractOptions {
    pub open spec fn should_extract_spec(&self, archive_type: ArchiveType) -> bool {
        match archive_type {
            ArchiveType::TarLz4 => self.tar_lz4,
            ArchiveType::Lz4 => self.lz4,
            ArchiveType::Tar | ArchiveType::TarGz => self.tar,
            ArchiveType::Zip => self.zip,
            ArchiveType::Rar => self.rar,
            _ => false,
        }
    }

    /// Whether unpacking is switched on for this kind of archive.
    pub fn should_extract(&self, archive_type: ArchiveType) -> (r: bool)
        ensures
            r == self.should_extract_spec(archive_type),
    {
        match archive_type {
            ArchiveType::TarLz4 => self.tar_lz4,
            ArchiveType::Lz4 => self.lz4,
            ArchiveType::Tar | ArchiveType::TarGz => self.tar,
            ArchiveType::Zip => self.zip,
            ArchiveType::Rar => self.rar,
            _ => false,
        }
    }

    /// Whether any of the tar, zip or rar switches is on.
    pub fn any_enabled(&self) -> (r: bool)
        ensures
            r == (self.tar_lz4 || self.tar || self.zip || self.rar),
    {
        self.tar_lz4 || self.tar || self.zip || self.rar
    }
}

/// Whether the name announces an LZ4 archive, tar or plain.
pub fn is_tar_lz4(filename: &str) -> (r: bool)
    ensures
        r == (archive_type_of(filename@) == ArchiveType::TarLz4 || archive_type_of(filename@) == ArchiveType::Lz4),
{
    match ArchiveType::from_filename(filename) {
        ArchiveType::TarLz4 => true,
        ArchiveType::Lz4 => true,
        _ => false,
    }
}

/// Whether the name announces an archive of any known kind.
pub fn is_archive(filename: &str) -> (r: bool)
    ensures
        r == (archive_type_of(filename@) != ArchiveType::Unknown),
{
    match ArchiveType::from_filename(filename) {
        ArchiveType::Unknown => false,
        _ => true,
    }
}

/// How an archive on disk is unpacked.
#[derive(Debug, Clone, Copy, PartialEq, Eq, Structural)]
pub enum ExtractMethod {
    TarLz4,
    TarZst,
    Lz4,
    Tar,
    TarGz,
    Zip,
    /// The format needs an outside tool.
    Unsupported,
    /// The name announces no archive.
    NotAnArchive,
}

pub open spec fn extract_method_spec(t: ArchiveType) -> ExtractMethod {
    match t {
        ArchiveType::TarLz4 => ExtractMethod::TarLz4,
        ArchiveType::TarZst => ExtractMethod::TarZst,
        ArchiveType::Lz4 => ExtractMethod::Lz4,
        ArchiveType::Tar => ExtractMethod::Tar,
        ArchiveType::TarGz => ExtractMethod::TarGz,
        ArchiveType::Zip => ExtractMethod::Zip,
        ArchiveType::Rar => ExtractMethod::Unsupported,
        ArchiveType::SevenZip => ExtractMethod::Unsupported,
        ArchiveType::Unknown => ExtractMethod::NotAnArchive,
    }
}

/// Chooses the way to unpack the archive with the given file name.
pub fn extract_method(filename: &str) -> (m: ExtractMethod)
    ensures
        m == extract_method_spec(archive_type_of(filename@)),
{
    match ArchiveType::from_filename(filename) {
        ArchiveType::TarLz4 => ExtractMethod::TarLz4,
        ArchiveType::TarZst => ExtractMethod::TarZst,
        ArchiveType::Lz4 => ExtractMethod::Lz4,
        ArchiveType::Tar => ExtractMethod::Tar,
        ArchiveType::TarGz => ExtractMethod::TarGz,
        ArchiveType::Zip => ExtractMethod::Zip,
        ArchiveType::Rar => ExtractMethod::Unsupported,
        ArchiveType::SevenZip => ExtractMethod::Unsupported,
        ArchiveType::Unknown => ExtractMethod::NotAnArchive,
    }
}

/// The magic bytes `ustar` of a tar header.
pub open spec fn ustar_magic() -> Seq<u8> {
    seq![117u8, 115u8, 116u8, 97u8, 114u8]
}

/// A byte that may stand in the checksum field of a tar header: NUL, space
/// or an octal digit.
pub open spec fn is_checksum_byte(b: u8) -> bool {
    b == 0 || b == 32 || (48 <= b <= 55)
}

/// Whether `data` begins like a tar archive: a header of 512 bytes that
/// either carries the magic at offset 257, or is not all zero and has a
/// well-formed checksum field at offset 148.
pub open spec fn looks_like_tar(data: Seq<u8>) -> bool {
    data.len() >= 512 && (data.subrange(257, 262) == ustar_magic() || ((exists|i: int|
        0 <= i < 512 && data[i] != 0) && (forall|j: int|
        148 <= j < 156 ==> is_checksum_byte(#[trigger] data[j]))))
}

/// Whether the bytes begin like a tar archive.
pub fn is_valid_tar(data: &[u8]) -> (r: bool)
    ensures
        r == looks_like_tar(data@),
{
    if data.len() < 512 {
        return false;
    }
    if data[257] == 117 && data[258] == 115 && data[259] == 116 && data[260] == 97 && data[261]
        == 114 {
        assert(data@.subrange(257, 262) =~= ustar_magic());
        return true;
    }
    proof {
        if data@.subrange(257, 262) == ustar_magic() {
            assert(data@.subrange(257, 262)[0] == data@[257]);
            assert(data@.subrange(257, 262)[1] == data@[258]);
            assert(data@.subrange(257, 262)[2] == data@[259]);
            assert(data@.subrange(257, 262)[3] == data@[260]);
            assert(data@.subrange(257, 262)[4] == data@[261]);
        }
    }
    let mut non_zero = false;
    let mut i: usize = 0;
    while i < 512
        invariant
            i <= 512,
            data@.len() >= 512,
            data@.subrange(257, 262) != ustar_magic(),
            non_zero == (exists|k: int| 0 <= k < i && data@[k] != 0),
        decreases 512 - i,
    {
        if data[i] != 0 {
            non_zero = true;
        }
        i += 1;
    }
    if !non_zero {
        return false;
    }
    let mut j: usize = 148;
    while j < 156
        invariant
            148 <= j <= 156,
            data@.len() >= 512,
            data@.subrange(257, 262) != ustar_magic(),
            exists|k: int| 0 <= k < 512 && data@[k] != 0,
            forall|k: int| 148 <= k < j ==> is_checksum_byte(#[trigger] data@[k]),
        decreases 156 - j,
    {
        let b = data[j];
        if !(b == 0 || b == 32 || (48 <= b && b <= 55)) {
            assert(!is_checksum_byte(data@[j as int]));
            return false;
        }
        j += 1;
    }
    true
}

} // verus!
