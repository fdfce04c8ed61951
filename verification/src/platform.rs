//! The platform the launcher runs on, as the version metadata names it, and
//! the path conventions that follow from it.
use vstd::prelude::*;
use crate::text::{str_eq, chars_of, string_from_chars};

verus! {

/// Operating systems that version rules can name.
#[derive(PartialEq, Eq, Structural, Clone, Copy, Debug)]
pub enum OsKind {
    Windows,
    MacOs,
    Linux,
    Unknown,
}

/// Processor architectures that version rules can name.
#[derive(PartialEq, Eq, Structural, Clone, Copy, Debug)]
pub enum ArchKind {
    X86,
    X64,
    Unknown,
}

/// The running platform.
#[derive(PartialEq, Eq, Structural, Clone, Copy, Debug)]
pub struct Platform {
    pub os: OsKind,
    pub arch: ArchKind,
}

impl Platform {
    /// The platform for Rust's target names (`std::env::consts::OS` and
    /// `std::env::consts::ARCH`).
    pub open spec fn spec_from_target(os: Seq<char>, arch: Seq<char>) -> Platform {
        Platform {
            os: if os == "windows"@ {
                OsKind::Windows
            } else if os == "macos"@ {
                OsKind::MacOs
            } else if os == "linux"@ {
                OsKind::Linux
            } else {
                OsKind::Unknown
            },
            arch: if arch == "x86"@ {
                ArchKind::X86
            } else if arch == "x86_64"@ {
                ArchKind::X64
            } else {
                ArchKind::Unknown
            },
        }
    }

    pub fn from_target(os: &str, arch: &str) -> (r: Platform)
        ensures
            r == Platform::spec_from_target(os@, arch@),
    {
        let os_kind = if str_eq(os, "windows") {
            OsKind::Windows
        } else if str_eq(os, "macos") {
            OsKind::MacOs
        } else if str_eq(os, "linux") {
            OsKind::Linux
        } else {
            OsKind::Unknown
        };
        let arch_kind = if str_eq(arch, "x86") {
            ArchKind::X86
        } else if str_eq(arch, "x86_64") {
            ArchKind::X64
        } else {
            ArchKind::Unknown
        };
        Platform { os: os_kind, arch: arch_kind }
    }

    /// The operating system's name in version metadata.
    pub open spec fn spec_os_name(self) -> Seq<char> {
        match self.os {
            OsKind::Windows => "windows"@,
            OsKind::MacOs => "osx"@,
            OsKind::Linux => "linux"@,
            OsKind::Unknown => "unknown"@,
        }
    }

    pub fn os_name(&self) -> (r: &'static str)
        ensures
            r@ == self.spec_os_name(),
    {
        match self.os {
            OsKind::Windows => "windows",
            OsKind::MacOs => "osx",
            OsKind::Linux => "linux",
            OsKind::Unknown => "unknown",
        }
    }

    /// The architecture's name in version metadata.
    pub open spec fn spec_arch_name(self) -> Seq<char> {
        match self.arch {
            ArchKind::X86 => "x86"@,
            ArchKind::X64 => "x64"@,
            ArchKind::Unknown => "unknown"@,
        }
    }

    pub fn arch_name(&self) -> (r: &'static str)
        ensures
            r@ == self.spec_arch_name(),
    {
        match self.arch {
            ArchKind::X86 => "x86",
            ArchKind::X64 => "x64",
            ArchKind::Unknown => "unknown",
        }
    }

    /// Separator between class-path entries.
    pub open spec fn spec_classpath_separator(self) -> Seq<char> {
        if self.os == OsKind::Windows {
            ";"@
        } else {
            ":"@
        }
    }

    pub fn classpath_separator(&self) -> (r: &'static str)
        ensures
            r@ == self.spec_classpath_separator(),
    {
        if self.os == OsKind::Windows {
            ";"
        } else {
            ":"
        }
    }

    /// Separator between path components.
    pub open spec fn spec_dir_separator(self) -> char {
        if self.os == OsKind::Windows {
            '\\'
        } else {
            '/'
        }
    }

    pub fn dir_separator(&self) -> (r: char)
        ensures
            r == self.spec_dir_separator(),
    {
        if self.os == OsKind::Windows {
            '\\'
        } else {
            '/'
        }
    }
}

/// `part` appended to the directory `base`: a separator is put between them
/// unless `base` is empty or already ends with one; an absolute `part`
/// (one that starts with a separator) stands for itself.
pub open spec fn spec_join_path(base: Seq<char>, part: Seq<char>, sep: char) -> Seq<char> {
    if part.len() > 0 && (part[0] == sep || part[0] == '/') {
        part
    } else if base.len() == 0 {
        part
    } else if base.last() == sep || base.last() == '/' {
        base + part
    } else {
        base.push(sep) + part
    }
}

/// `part` joined onto the directory `base` with the platform's separator.
pub fn join_path(base: &str, part: &str, platform: &Platform) -> (r: String)
    ensures
        r@ == spec_join_path(base@, part@, platform.spec_dir_separator()),
{
    let sep = platform.dir_separator();
    let b = chars_of(base);
    let p = chars_of(part);
    if p.len() > 0 && (p[0] == sep || p[0] == '/') {
        return string_from_chars(p.as_slice());
    }
    if b.len() == 0 {
        return string_from_chars(p.as_slice());
    }
    let mut out = b;
    let last = out[out.len() - 1];
    if !(last == sep || last == '/') {
        out.push(sep);
    }
    let ghost prefix = out@;
    let n = p.len();
    for i in 0..n
        invariant
            n == p@.len(),
            out@ == prefix + p@.take(i as int),
    {
        assert(p@.take(i + 1) == p@.take(i as int).push(p@[i as int]));
        out.push(p[i]);
    }
    assert(p@.take(n as int) == p@);
    string_from_chars(out.as_slice())
}

} // verus!
