//! Virtual filesystem: entry types, metadata, directory listings and text
//! decoding of file contents.
use vstd::prelude::*;
use crate::duration::{Duration, SystemTime};
use crate::error::{SysError, api_error_str};
use crate::text::{chars_of, string_from_chars, utf8_str};
use vstd::string::StrSliceExecFns;

verus! {

/// The type of a filesystem entry.
#[derive(Debug, Clone, Copy, PartialEq, Eq)]
pub enum FileType {
    /// Regular file.
    Regular,
    /// Directory.
    Directory,
    /// Symbolic link (seen without following links).
    Symlink,
    /// Any other kind of entry.
    Other,
}

impl FileType {
    /// Whether this is a regular file.
    pub fn is_file(self) -> (b: bool)
        ensures
            b == (self == FileType::Regular),
    {
        matches!(self, FileType::Regular)
    }

    /// Whether this is a directory.
    pub fn is_dir(self) -> (b: bool)
        ensures
            b == (self == FileType::Directory),
    {
        matches!(self, FileType::Directory)
    }

    /// Whether this is a symbolic link.
    pub fn is_symlink(self) -> (b: bool)
        ensures
            b == (self == FileType::Symlink),
    {
        matches!(self, FileType::Symlink)
    }
}

/// A timestamp as the host reports it: signed seconds since the epoch and
/// nanoseconds.
#[derive(Debug, Clone, Copy, PartialEq, Eq)]
pub struct Datetime {
    pub seconds: i64,
    pub nanoseconds: u32,
}

/// File status as the host reports it.
#[derive(Debug, Clone, Copy, PartialEq, Eq)]
pub struct FileStat {
    pub size: u64,
    pub kind: FileType,
    pub mode: u32,
    pub modified: Option<Datetime>,
    pub created: Option<Datetime>,
    pub accessed: Option<Datetime>,
}

/// The time `dt` stands for; only times at or after the epoch are
/// representable.
pub open spec fn time_of(dt: Datetime) -> Option<int> {
    if dt.seconds < 0 {
        None
    } else {
        Some(dt.seconds * 1_000_000_000 + dt.nanoseconds)
    }
}

/// `dt` does not overflow the wall clock when its nanoseconds are added.
pub open spec fn datetime_in_range(dt: Datetime) -> bool {
    dt.seconds + (dt.nanoseconds as int) / 1_000_000_000 <= i64::MAX
}

/// Convert a host timestamp into a wall-clock time: `None` before the epoch.
pub fn datetime_to_system_time(dt: Datetime) -> (t: Option<SystemTime>)
    requires
        datetime_in_range(dt),
    ensures
        match time_of(dt) {
            None => t is None,
            Some(n) => t is Some && t->0.since_epoch.wf() && t->0.since_epoch.total_nanos() == n,
        },
{
    if dt.seconds < 0 {
        return None;
    }
    let secs = dt.seconds as u64;
    Some(SystemTime { since_epoch: Duration::new(secs, dt.nanoseconds) })
}

/// The wall-clock time of an optional timestamp, in nanoseconds since the
/// epoch.
pub open spec fn nanos_of(t: Option<SystemTime>) -> Option<int> {
    match t {
        Some(t) => Some(t.since_epoch.total_nanos()),
        None => None,
    }
}

/// The time of an optional host timestamp, when it has one at or after the
/// epoch.
pub open spec fn opt_time_of(dt: Option<Datetime>) -> Option<int> {
    match dt {
        Some(d) => time_of(d),
        None => None,
    }
}

fn opt_time(dt: Option<Datetime>) -> (t: Option<SystemTime>)
    requires
        dt matches Some(d) ==> datetime_in_range(d),
    ensures
        nanos_of(t) == opt_time_of(dt),
        t matches Some(x) ==> x.since_epoch.wf(),
{
    match dt {
        Some(d) => datetime_to_system_time(d),
        None => None,
    }
}

/// Metadata about a file or directory.
#[derive(Debug, Clone, Copy, PartialEq, Eq)]
pub struct Metadata {
    size: u64,
    kind: FileType,
    mode: u32,
    modified: Option<SystemTime>,
    created: Option<SystemTime>,
    accessed: Option<SystemTime>,
}

/// Metadata as the SDK sees it; times in nanoseconds since the epoch.
pub struct MetadataModel {
    pub size: u64,
    pub kind: FileType,
    pub mode: u32,
    pub modified: Option<int>,
    pub created: Option<int>,
    pub accessed: Option<int>,
}

impl View for Metadata {
    type V = MetadataModel;

    closed spec fn view(&self) -> MetadataModel {
        MetadataModel {
            size: self.size,
            kind: self.kind,
            mode: self.mode,
            modified: nanos_of(self.modified),
            created: nanos_of(self.created),
            accessed: nanos_of(self.accessed),
        }
    }
}

/// Every timestamp of `stat` can be added to the wall clock.
pub open spec fn stat_in_range(stat: FileStat) -> bool {
    &&& stat.modified matches Some(d) ==> datetime_in_range(d)
    &&& stat.created matches Some(d) ==> datetime_in_range(d)
    &&& stat.accessed matches Some(d) ==> datetime_in_range(d)
}

fn time_or(t: Option<SystemTime>, missing: &str) -> (r: Result<SystemTime, SysError>)
    ensures
        match t {
            Some(x) => r == Ok::<SystemTime, SysError>(x),
            None => r matches Err(SysError::ApiError(m)) && m@ == missing@,
        },
{
    match t {
        Some(x) => Ok(x),
        None => Err(api_error_str(missing)),
    }
}

impl Metadata {
    /// The metadata for host status `stat`; timestamps before the epoch are
    /// dropped.
    pub fn from_stat(stat: FileStat) -> (m: Metadata)
        requires
            stat_in_range(stat),
        ensures
            m@ == (MetadataModel {
                size: stat.size,
                kind: stat.kind,
                mode: stat.mode,
                modified: opt_time_of(stat.modified),
                created: opt_time_of(stat.created),
                accessed: opt_time_of(stat.accessed),
            }),
    {
        Metadata {
            size: stat.size,
            kind: stat.kind,
            mode: stat.mode,
            modified: opt_time(stat.modified),
            created: opt_time(stat.created),
            accessed: opt_time(stat.accessed),
        }
    }

    /// Size in bytes.
    pub fn len(&self) -> (n: u64)
        ensures
            n == self@.size,
    {
        self.size
    }

    /// Whether the size is zero.
    pub fn is_empty(&self) -> (b: bool)
        ensures
            b == (self@.size == 0),
    {
        self.size == 0
    }

    /// Whether this describes a directory.
    pub fn is_dir(&self) -> (b: bool)
        ensures
            b == (self@.kind == FileType::Directory),
    {
        self.kind.is_dir()
    }

    /// Whether this describes a regular file.
    pub fn is_file(&self) -> (b: bool)
        ensures
            b == (self@.kind == FileType::Regular),
    {
        self.kind.is_file()
    }

    /// Whether this describes a symbolic link.
    pub fn is_symlink(&self) -> (b: bool)
        ensures
            b == (self@.kind == FileType::Symlink),
    {
        self.kind.is_symlink()
    }

    /// The entry type.
    pub fn file_type(&self) -> (k: FileType)
        ensures
            k == self@.kind,
    {
        self.kind
    }

    /// POSIX mode bits.
    pub fn mode(&self) -> (m: u32)
        ensures
            m == self@.mode,
    {
        self.mode
    }

    /// Last modification time; an API error when the host reported none.
    pub fn modified(&self) -> (r: Result<SystemTime, SysError>)
        ensures
            match self@.modified {
                Some(n) => r is Ok && r->Ok_0.since_epoch.total_nanos() == n,
                None => r matches Err(SysError::ApiError(m)) && m@ == "modification time unavailable"@,
            },
    {
        time_or(self.modified, "modification time unavailable")
    }

    /// Creation time; an API error when the host reported none.
    pub fn created(&self) -> (r: Result<SystemTime, SysError>)
        ensures
            match self@.created {
                Some(n) => r is Ok && r->Ok_0.since_epoch.total_nanos() == n,
                None => r matches Err(SysError::ApiError(m)) && m@ == "creation time unavailable"@,
            },
    {
        time_or(self.created, "creation time unavailable")
    }

    /// Last access time; an API error when the host reported none.
    pub fn accessed(&self) -> (r: Result<SystemTime, SysError>)
        ensures
            match self@.accessed {
                Some(n) => r is Ok && r->Ok_0.since_epoch.total_nanos() == n,
                None => r matches Err(SysError::ApiError(m)) && m@ == "access time unavailable"@,
            },
    {
        time_or(self.accessed, "access time unavailable")
    }
}

/// A directory entry: its full path and where its name starts in it.
#[derive(Debug, Clone, PartialEq, Eq)]
pub struct DirEntry {
    path: String,
    name_offset: usize,
}

impl DirEntry {
    pub closed spec fn spec_path(&self) -> Seq<char> {
        self.path@
    }

    pub closed spec fn spec_name(&self) -> Seq<char> {
        self.path@.skip(self.name_offset as int)
    }

    pub closed spec fn wf(&self) -> bool {
        self.name_offset <= self.path@.len()
    }

    /// The file name of this entry.
    pub fn file_name(&self) -> (n: &str)
        requires
            self.wf(),
        ensures
            n@ == self.spec_name(),
    {
        let len = self.path.as_str().unicode_len();
        self.path.as_str().substring_char(self.name_offset, len)
    }

    /// The full path to this entry.
    pub fn path(&self) -> (p: &str)
        ensures
            p@ == self.spec_path(),
    {
        self.path.as_str()
    }
}

/// The directory part entries of `path` are joined to: `path` itself when it
/// is empty or ends with `/`, otherwise `path` followed by `/`.
pub open spec fn dir_prefix(path: Seq<char>) -> Seq<char> {
    if path.len() == 0 || path.last() == '/' {
        path
    } else {
        path.push('/')
    }
}

/// The entries of a directory listing, in the order the host returned them.
#[derive(Debug)]
pub struct ReadDir {
    entries: Vec<DirEntry>,
}

impl ReadDir {
    pub closed spec fn spec_entries(&self) -> Seq<DirEntry> {
        self.entries@
    }

    pub closed spec fn wf(&self) -> bool {
        forall|i: int| 0 <= i < self.entries@.len() ==> (#[trigger] self.entries@[i]).wf()
    }

    /// The next entry, if any.
    pub fn next(&mut self) -> (e: Option<DirEntry>)
        requires
            old(self).wf(),
        ensures
            final(self).wf(),
            match e {
                Some(x) => old(self).spec_entries().len() > 0 && x == old(self).spec_entries()[0]
                    && final(self).spec_entries() == old(self).spec_entries().drop_first() && x.wf(),
                None => old(self).spec_entries().len() == 0 && final(self).spec_entries().len() == 0,
            },
    {
        if self.entries.len() > 0 {
            let ghost before = self.entries@;
            let e = self.entries.remove(0);
            proof {
                assert(self.entries@ =~= before.drop_first());
                assert(before[0].wf());
            }
            Some(e)
        } else {
            None
        }
    }

    /// The number of entries not yet returned by [`ReadDir::next`].
    pub fn remaining(&self) -> (n: usize)
        ensures
            n == self.spec_entries().len(),
    {
        self.entries.len()
    }
}

/// The listing of directory `path` whose entry names the host returned as
/// `names`: each entry's path is the directory prefix followed by its name.
pub fn read_dir(path: &str, names: Vec<String>) -> (r: ReadDir)
    ensures
        r.wf(),
        r.spec_entries().len() == names@.len(),
        forall|i: int| 0 <= i < names@.len() ==> {
            &&& (#[trigger] r.spec_entries()[i]).spec_path() == dir_prefix(path@) + names@[i]@
            &&& r.spec_entries()[i].spec_name() == names@[i]@
        },
{
    let mut parent = chars_of(path);
    let ghost p0 = parent@;
    if parent.len() > 0 && parent[parent.len() - 1] != '/' {
        parent.push('/');
        proof {
            assert(p0.last() == p0[p0.len() - 1]);
            assert(parent@ =~= dir_prefix(path@));
        }
    } else {
        assert(p0.len() > 0 ==> p0.last() == p0[p0.len() - 1]);
        assert(parent@ =~= dir_prefix(path@));
    }
    let mut entries: Vec<DirEntry> = Vec::new();
    let mut i: usize = 0;
    while i < names.len()
        invariant
            i <= names.len(),
            parent@ == dir_prefix(path@),
            entries@.len() == i,
            forall|j: int| 0 <= j < i ==> {
                &&& (#[trigger] entries@[j]).wf()
                &&& entries@[j].spec_path() == parent@ + names@[j]@
                &&& entries@[j].spec_name() == names@[j]@
            },
        decreases names.len() - i,
    {
        let mut full = parent.clone();
        let mut name = chars_of(names[i].as_str());
        let ghost name_view = name@;
        full.append(&mut name);
        let e = DirEntry { path: string_from_chars(full.as_slice()), name_offset: parent.len() };
        proof {
            assert(e.path@.skip(parent@.len() as int) =~= name_view);
        }
        entries.push(e);
        i = i + 1;
    }
    ReadDir { entries }
}

/// Open-options analogue.
#[derive(Debug, Clone, Copy, PartialEq, Eq)]
pub enum OpenMode {
    /// Open an existing file for reading only.
    Read,
    /// Open or create for writing; truncates existing content.
    Write,
    /// Open or create for writing; appends to existing content.
    Append,
    /// Open an existing file for reading and writing.
    ReadWrite,
}

/// The contents of a file as UTF-8 text; an API error when they are not
/// valid UTF-8.
pub fn read_to_string(bytes: Vec<u8>) -> (r: Result<String, SysError>)
    ensures
        r is Ok <==> vstd::utf8::valid_utf8(bytes@),
        r matches Ok(s) ==> s@ == vstd::utf8::decode_utf8(bytes@),
        r matches Err(e) ==> e is ApiError,
{
    match utf8_str(bytes.as_slice()) {
        Ok(s) => Ok(String::from_str(s)),
        Err(e) => Err(SysError::ApiError(e)),
    }
}

} // verus!
