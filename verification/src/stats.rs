//! The running system: its kernel, its names, and what its os-release file says.

use crate::release::{lookup, next_line, opt_text, rows_of, split_entry, trim_bounds, updated};
use crate::scan::{chars_of, range_is, starts_with};
use vstd::prelude::*;
use vstd::utf8::{decode_utf8, valid_utf8};

verus! {

/// The kernel families that are told apart.
#[derive(Debug, Clone, Copy, PartialEq, Eq, Structural)]
pub enum Kernel {
    NT,
    Linux,
    Darwin,
    NetBSD,
    OpenBSD,
    FreeBSD,
    Unknown,
}

/// The operating systems that are told apart.
#[derive(Debug, Clone, Copy, PartialEq, Eq, Structural)]
pub enum OS {
    EndeavourOS,
    Arch,
    Artix,
    Ubuntu,
    LinuxGeneric,
    NetBSD,
    OpenBSD,
    FreeBSD,
    Windows,
}

impl Kernel {
    /// The kernel's name as it is shown to a user: the name of the variant.
    pub fn name(&self) -> (name: &'static str)
        ensures
            name@ == match *self {
                Kernel::NT => "NT"@,
                Kernel::Linux => "Linux"@,
                Kernel::Darwin => "Darwin"@,
                Kernel::NetBSD => "NetBSD"@,
                Kernel::OpenBSD => "OpenBSD"@,
                Kernel::FreeBSD => "FreeBSD"@,
                Kernel::Unknown => "Unknown"@,
            },
    {
        match self {
            Kernel::NT => "NT",
            Kernel::Linux => "Linux",
            Kernel::Darwin => "Darwin",
            Kernel::NetBSD => "NetBSD",
            Kernel::OpenBSD => "OpenBSD",
            Kernel::FreeBSD => "FreeBSD",
            Kernel::Unknown => "Unknown",
        }
    }
}

impl OS {
    /// The system's name as it is shown to a user: the name of the variant.
    pub fn name(&self) -> (name: &'static str)
        ensures
            name@ == match *self {
                OS::EndeavourOS => "EndeavourOS"@,
                OS::Arch => "Arch"@,
                OS::Artix => "Artix"@,
                OS::Ubuntu => "Ubuntu"@,
                OS::LinuxGeneric => "LinuxGeneric"@,
                OS::NetBSD => "NetBSD"@,
                OS::OpenBSD => "OpenBSD"@,
                OS::FreeBSD => "FreeBSD"@,
                OS::Windows => "Windows"@,
            },
    {
        match self {
            OS::EndeavourOS => "EndeavourOS",
            OS::Arch => "Arch",
            OS::Artix => "Artix",
            OS::Ubuntu => "Ubuntu",
            OS::LinuxGeneric => "LinuxGeneric",
            OS::NetBSD => "NetBSD",
            OS::OpenBSD => "OpenBSD",
            OS::FreeBSD => "FreeBSD",
            OS::Windows => "Windows",
        }
    }
}

/// What is known of the installed system.
#[derive(Debug)]
pub struct OSRelase {
    pub os: Option<OS>,
    pub id: Option<String>,
    pub id_like: Option<String>,
    pub name: Option<String>,
    pub name_pretty: Option<String>,
    pub build: Option<String>,
    pub logo: Option<String>,
}

/// An `OSRelase` with each text as its characters.
pub struct Release {
    pub os: Option<OS>,
    pub id: Option<Seq<char>>,
    pub id_like: Option<Seq<char>>,
    pub name: Option<Seq<char>>,
    pub name_pretty: Option<Seq<char>>,
    pub build: Option<Seq<char>>,
    pub logo: Option<Seq<char>>,
}

impl View for OSRelase {
    type V = Release;

    open spec fn view(&self) -> Release {
        Release {
            os: self.os,
            id: opt_text(self.id),
            id_like: opt_text(self.id_like),
            name: opt_text(self.name),
            name_pretty: opt_text(self.name_pretty),
            build: opt_text(self.build),
            logo: opt_text(self.logo),
        }
    }
}

/// What nothing is known of: every field is absent.
pub open spec fn no_release() -> Release {
    Release {
        os: None,
        id: None,
        id_like: None,
        name: None,
        name_pretty: None,
        build: None,
        logo: None,
    }
}

/// What a Linux system is taken for when its os-release file cannot be read.
pub open spec fn generic_linux() -> Release {
    Release { os: Some(OS::LinuxGeneric), ..no_release() }
}

/// What the text of an os-release file says of a Linux system. Each field has
/// the value of the last row that names it.
pub open spec fn release_of(text: Seq<char>) -> Release {
    let rows = rows_of(text);
    Release {
        os: Some(OS::LinuxGeneric),
        id: lookup(rows, "ID"@),
        id_like: lookup(rows, "ID_LIKE"@),
        name: lookup(rows, "NAME"@),
        name_pretty: lookup(rows, "PRETTY_NAME"@),
        build: lookup(rows, "BUILD_ID"@),
        logo: lookup(rows, "LOGO"@),
    }
}

impl OSRelase {
    /// Nothing known.
    pub fn unknown() -> (release: OSRelase)
        ensures
            release@ == no_release(),
    {
        OSRelase {
            os: None,
            id: None,
            id_like: None,
            name: None,
            name_pretty: None,
            build: None,
            logo: None,
        }
    }

    /// Reads the text of a Linux system's os-release file.
    pub fn from_text(text: &str) -> (release: OSRelase)
        ensures
            release@ == release_of(text@),
    {
        let chars = chars_of(text);
        let (start, end) = trim_bounds(&chars);
        let mut id: Option<String> = None;
        let mut id_like: Option<String> = None;
        let mut name: Option<String> = None;
        let mut name_pretty: Option<String> = None;
        let mut build: Option<String> = None;
        let mut logo: Option<String> = None;
        let ghost mut done: Seq<Seq<char>> = Seq::empty();
        let mut pos = start;
        while pos < end
            invariant
                start <= pos <= end <= chars.len(),
                chars@ == text@,
                rows_of(text@) == done + crate::release::lines(
                    chars@.subrange(pos as int, end as int),
                ),
                opt_text(id) == lookup(done, "ID"@),
                opt_text(id_like) == lookup(done, "ID_LIKE"@),
                opt_text(name) == lookup(done, "NAME"@),
                opt_text(name_pretty) == lookup(done, "PRETTY_NAME"@),
                opt_text(build) == lookup(done, "BUILD_ID"@),
                opt_text(logo) == lookup(done, "LOGO"@),
            decreases end - pos,
        {
            let (line_end, next) = next_line(&chars, pos, end);
            let ghost line = chars@.subrange(pos as int, line_end as int);
            proof {
                assert(done.push(line) + crate::release::lines(
                    chars@.subrange(next as int, end as int),
                ) =~= done + crate::release::lines(chars@.subrange(pos as int, end as int)));
                assert(done.push(line).drop_last() =~= done);
            }
            match split_entry(&chars, pos, line_end) {
                Some((eq_at, value_end)) => {
                    id = updated(text, &chars, pos, eq_at, value_end, "ID", id);
                    id_like = updated(text, &chars, pos, eq_at, value_end, "ID_LIKE", id_like);
                    name = updated(text, &chars, pos, eq_at, value_end, "NAME", name);
                    name_pretty =
                    updated(text, &chars, pos, eq_at, value_end, "PRETTY_NAME", name_pretty);
                    build = updated(text, &chars, pos, eq_at, value_end, "BUILD_ID", build);
                    logo = updated(text, &chars, pos, eq_at, value_end, "LOGO", logo);
                },
                None => {},
            }
            proof {
                done = done.push(line);
            }
            pos = next;
        }
        proof {
            assert(chars@.subrange(end as int, end as int) =~= Seq::<char>::empty());
            assert(done + Seq::<Seq<char>>::empty() =~= done);
        }
        OSRelase { os: Some(OS::LinuxGeneric), id, id_like, name, name_pretty, build, logo }
    }
}

/// The text that a lossy reading of `bytes` as UTF-8 gives: each part that is
/// no UTF-8 stands in it as U+FFFD.
pub uninterp spec fn lossy_utf8(bytes: Seq<u8>) -> Seq<char>;

/// Reads `bytes` as UTF-8 with rustix's `Arg::to_string_lossy`, which for a byte
/// vector is std's `String::from_utf8_lossy`. Taken on trust: the text is a
/// function of the bytes alone, and bytes that are UTF-8 give the text they encode.
#[verifier::external_body]
fn lossy_text(bytes: &Vec<u8>) -> (text: String)
    ensures
        text@ == lossy_utf8(bytes@),
        valid_utf8(bytes@) ==> text@ == decode_utf8(bytes@),
{
    rustix::path::Arg::to_string_lossy(bytes).into_owned()
}

/// Reads `bytes` as UTF-8 with std's `String::from_utf8`. Taken on trust: it
/// gives a text exactly where the bytes are UTF-8, and then the text they encode.
#[verifier::external_body]
fn utf8_text(bytes: Vec<u8>) -> (text: Option<String>)
    ensures
        text is Some <==> valid_utf8(bytes@),
        text matches Some(t) ==> t@ == decode_utf8(bytes@),
{
    String::from_utf8(bytes).ok()
}

/// Asks the kernel for its names with rustix's `uname`, and copies out the
/// system name, the node name and the version, in this order. Taken on trust:
/// none of them holds a NUL byte, each being a C string without the NUL that
/// ends it. What they say is the machine's own, and nothing is claimed of it.
#[verifier::external_body]
fn uname_names() -> (names: (Vec<u8>, Vec<u8>, Vec<u8>))
    ensures
        !names.0@.contains(0u8),
        !names.1@.contains(0u8),
        !names.2@.contains(0u8),
{
    let names = rustix::process::uname();
    (
        names.sysname().to_bytes().to_vec(),
        names.nodename().to_bytes().to_vec(),
        names.version().to_bytes().to_vec(),
    )
}

/// The kernel family that a system name stands for.
pub open spec fn kernel_named(sysname: Seq<char>) -> Kernel {
    if sysname == "Linux"@ || "GNU"@.is_prefix_of(sysname) {
        Kernel::Linux
    } else if sysname == "XNU's Not UNIX!"@ {
        Kernel::Darwin
    } else if sysname == "FreeBSD"@ {
        Kernel::FreeBSD
    } else if sysname == "NetBSD"@ {
        Kernel::NetBSD
    } else if sysname == "OpenBSD"@ {
        Kernel::OpenBSD
    } else if sysname == "The New Technology"@ {
        Kernel::NT
    } else {
        Kernel::Unknown
    }
}

/// Tells the kernel family from the system name that `uname` reports.
pub fn kernel_of(sysname: &str) -> (kernel: Kernel)
    ensures
        kernel == kernel_named(sysname@),
{
    let chars = chars_of(sysname);
    let n = chars.len();
    proof {
        assert(chars@.subrange(0, n as int) =~= chars@);
    }
    if range_is(&chars, 0, n, "Linux") || starts_with(&chars, "GNU") {
        Kernel::Linux
    } else if range_is(&chars, 0, n, "XNU's Not UNIX!") {
        Kernel::Darwin
    } else if range_is(&chars, 0, n, "FreeBSD") {
        Kernel::FreeBSD
    } else if range_is(&chars, 0, n, "NetBSD") {
        Kernel::NetBSD
    } else if range_is(&chars, 0, n, "OpenBSD") {
        Kernel::OpenBSD
    } else if range_is(&chars, 0, n, "The New Technology") {
        Kernel::NT
    } else {
        Kernel::Unknown
    }
}

/// The running system as `uname` describes it.
#[derive(Debug)]
pub struct System {
    pub kernel: Kernel,
    pub kernel_version: String,
    pub hostname: String,
}

/// Whether `system` is what the three names that `uname` reports say of a
/// system. They describe one exactly where all three are UTF-8: the system
/// name tells the kernel, the node name is the host name, and the version is
/// the kernel's version.
pub open spec fn described_by(
    sysname: Seq<u8>,
    nodename: Seq<u8>,
    version: Seq<u8>,
    system: Option<System>,
) -> bool {
    &&& system is Some <==> valid_utf8(sysname) && valid_utf8(nodename) && valid_utf8(version)
    &&& system matches Some(s) ==> {
        &&& s.kernel == kernel_named(decode_utf8(sysname))
        &&& s.hostname@ == decode_utf8(nodename)
        &&& s.kernel_version@ == decode_utf8(version)
    }
}

impl System {
    /// Describes the running system: the description is the one that
    /// `from_names` gives of the three names that the kernel reports, none of
    /// which holds a NUL byte. There is none where one of them is no UTF-8.
    pub fn new() -> (system: Option<System>)
        ensures
            exists|sysname: Seq<u8>, nodename: Seq<u8>, version: Seq<u8>|
                {
                    &&& !sysname.contains(0u8)
                    &&& !nodename.contains(0u8)
                    &&& !version.contains(0u8)
                    &&& #[trigger] described_by(sysname, nodename, version, system)
                },
    {
        let (sysname, nodename, version) = uname_names();
        let ghost names = (sysname@, nodename@, version@);
        let system = System::from_names(sysname, nodename, version);
        proof {
            assert(described_by(names.0, names.1, names.2, system));
        }
        system
    }

    /// Describes a system from the names that `uname` reports of it: the system
    /// name tells the kernel, the node name is the host name, the version is the
    /// kernel's version. There is a description exactly where all three are UTF-8.
    pub fn from_names(sysname: Vec<u8>, nodename: Vec<u8>, version: Vec<u8>) -> (system: Option<
        System,
    >)
        ensures
            described_by(sysname@, nodename@, version@, system),
    {
        let kernel_version = match utf8_text(version) {
            Some(text) => text,
            None => { return None; },
        };
        let hostname = match utf8_text(nodename) {
            Some(text) => text,
            None => { return None; },
        };
        let kernel = match utf8_text(sysname) {
            Some(text) => kernel_of(text.as_str()),
            None => { return None; },
        };
        Some(System { kernel, kernel_version, hostname })
    }

    /// What is known of the installed system, given the bytes of its os-release
    /// file where that file could be read. Only a Linux system has such a file:
    /// of any other nothing is known. A Linux system whose file could not be read
    /// is a generic one with no field known.
    pub fn os_release(&self, contents: Option<Vec<u8>>) -> (release: OSRelase)
        ensures
            release@ == match (self.kernel, contents) {
                (Kernel::Linux, Some(bytes)) => release_of(lossy_utf8(bytes@)),
                (Kernel::Linux, None) => generic_linux(),
                _ => no_release(),
            },
    {
        match self.kernel {
            Kernel::Linux => match contents {
                Some(bytes) => {
                    let text = lossy_text(&bytes);
                    OSRelase::from_text(text.as_str())
                },
                None => {
                    let mut release = OSRelase::unknown();
                    release.os = Some(OS::LinuxGeneric);
                    release
                },
            },
            _ => OSRelase::unknown(),
        }
    }
}

} // verus!
