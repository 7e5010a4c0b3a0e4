//! What the host says of the operating system it runs on.
use crate::outside::text_eq;
use vstd::prelude::*;

verus! {

/// The processor architectures for which the application can have been built.
#[derive(Debug, Clone, Copy, PartialEq, Eq, Structural, PartialOrd, Ord)]
pub enum Arch {
    X86,
    X86_64,
    Arm,
    Aarch64,
    Mips,
    Mips64,
    Powerpc,
    Powerpc64,
    Riscv64,
    S390x,
    Sparc64,
}

impl Arch {
    /// The name under which the host reports the value.
    pub open spec fn spec_name(self) -> Seq<char> {
        match self {
            Arch::X86 => "x86"@,
            Arch::X86_64 => "x86_64"@,
            Arch::Arm => "arm"@,
            Arch::Aarch64 => "aarch64"@,
            Arch::Mips => "mips"@,
            Arch::Mips64 => "mips64"@,
            Arch::Powerpc => "powerpc"@,
            Arch::Powerpc64 => "powerpc64"@,
            Arch::Riscv64 => "riscv64"@,
            Arch::S390x => "s390x"@,
            Arch::Sparc64 => "sparc64"@,
        }
    }

    pub fn name(&self) -> (name: &'static str)
        ensures
            name@ == self.spec_name(),
    {
        match self {
            Arch::X86 => "x86",
            Arch::X86_64 => "x86_64",
            Arch::Arm => "arm",
            Arch::Aarch64 => "aarch64",
            Arch::Mips => "mips",
            Arch::Mips64 => "mips64",
            Arch::Powerpc => "powerpc",
            Arch::Powerpc64 => "powerpc64",
            Arch::Riscv64 => "riscv64",
            Arch::S390x => "s390x",
            Arch::Sparc64 => "sparc64",
        }
    }

    /// The value that the host reports under the given name, and none
    /// where it reports none under it.
    pub open spec fn spec_from_name(name: Seq<char>) -> Option<Arch> {
        if name == "x86"@ {
            Some(Arch::X86)
        } else if name == "x86_64"@ {
            Some(Arch::X86_64)
        } else if name == "arm"@ {
            Some(Arch::Arm)
        } else if name == "aarch64"@ {
            Some(Arch::Aarch64)
        } else if name == "mips"@ {
            Some(Arch::Mips)
        } else if name == "mips64"@ {
            Some(Arch::Mips64)
        } else if name == "powerpc"@ {
            Some(Arch::Powerpc)
        } else if name == "powerpc64"@ {
            Some(Arch::Powerpc64)
        } else if name == "riscv64"@ {
            Some(Arch::Riscv64)
        } else if name == "s390x"@ {
            Some(Arch::S390x)
        } else if name == "sparc64"@ {
            Some(Arch::Sparc64)
        } else {
            None
        }
    }

    /// No two values share a name: reading back the name of a value gives
    /// the value.
    pub proof fn lemma_name_round_trip(value: Arch)
        ensures
            Self::spec_from_name(value.spec_name()) == Some(value),
    {
        reveal_strlit("x86");
        reveal_strlit("x86_64");
        reveal_strlit("arm");
        reveal_strlit("aarch64");
        reveal_strlit("mips");
        reveal_strlit("mips64");
        reveal_strlit("powerpc");
        reveal_strlit("powerpc64");
        reveal_strlit("riscv64");
        reveal_strlit("s390x");
        reveal_strlit("sparc64");
        assert("x86"@.len() == 3 && "x86"@[0] == 'x');
        assert("x86_64"@.len() == 6 && "x86_64"@[0] == 'x');
        assert("arm"@.len() == 3 && "arm"@[0] == 'a');
        assert("aarch64"@.len() == 7 && "aarch64"@[0] == 'a');
        assert("mips"@.len() == 4 && "mips"@[0] == 'm');
        assert("mips64"@.len() == 6 && "mips64"@[0] == 'm');
        assert("powerpc"@.len() == 7 && "powerpc"@[0] == 'p');
        assert("powerpc64"@.len() == 9 && "powerpc64"@[0] == 'p');
        assert("riscv64"@.len() == 7 && "riscv64"@[0] == 'r');
        assert("s390x"@.len() == 5 && "s390x"@[0] == 's');
        assert("sparc64"@.len() == 7 && "sparc64"@[0] == 's');
    }

    pub fn from_name(name: &str) -> (found: Option<Arch>)
        ensures
            found == Self::spec_from_name(name@),
            found matches Some(value) ==> value.spec_name() == name@,
            found.is_none() ==> forall|value: Arch| value.spec_name() != name@,
    {
        if text_eq(name, "x86") {
            Some(Arch::X86)
        } else if text_eq(name, "x86_64") {
            Some(Arch::X86_64)
        } else if text_eq(name, "arm") {
            Some(Arch::Arm)
        } else if text_eq(name, "aarch64") {
            Some(Arch::Aarch64)
        } else if text_eq(name, "mips") {
            Some(Arch::Mips)
        } else if text_eq(name, "mips64") {
            Some(Arch::Mips64)
        } else if text_eq(name, "powerpc") {
            Some(Arch::Powerpc)
        } else if text_eq(name, "powerpc64") {
            Some(Arch::Powerpc64)
        } else if text_eq(name, "riscv64") {
            Some(Arch::Riscv64)
        } else if text_eq(name, "s390x") {
            Some(Arch::S390x)
        } else if text_eq(name, "sparc64") {
            Some(Arch::Sparc64)
        } else {
            assert forall|value: Arch| value.spec_name() != name@ by {
                match value {
                    Arch::X86 => {},
                    Arch::X86_64 => {},
                    Arch::Arm => {},
                    Arch::Aarch64 => {},
                    Arch::Mips => {},
                    Arch::Mips64 => {},
                    Arch::Powerpc => {},
                    Arch::Powerpc64 => {},
                    Arch::Riscv64 => {},
                    Arch::S390x => {},
                    Arch::Sparc64 => {},
                }
            }
            None
        }
    }

    /// Every value, in declaration order.
    pub fn all_variants() -> (all: Vec<Arch>)
        ensures
            all@ == seq![
                Arch::X86,
                Arch::X86_64,
                Arch::Arm,
                Arch::Aarch64,
                Arch::Mips,
                Arch::Mips64,
                Arch::Powerpc,
                Arch::Powerpc64,
                Arch::Riscv64,
                Arch::S390x,
                Arch::Sparc64,
            ],
    {
        vec![
            Arch::X86,
            Arch::X86_64,
            Arch::Arm,
            Arch::Aarch64,
            Arch::Mips,
            Arch::Mips64,
            Arch::Powerpc,
            Arch::Powerpc64,
            Arch::Riscv64,
            Arch::S390x,
            Arch::Sparc64,
        ]
    }
}

/// The families of operating systems.
#[derive(Debug, Clone, Copy, PartialEq, Eq, Structural, PartialOrd, Ord)]
pub enum OsType {
    Linux,
    Darwin,
    WindowsNt,
}

impl OsType {
    /// The name under which the host reports the value.
    pub open spec fn spec_name(self) -> Seq<char> {
        match self {
            OsType::Linux => "Linux"@,
            OsType::Darwin => "Darwin"@,
            OsType::WindowsNt => "Windows_NT"@,
        }
    }

    pub fn name(&self) -> (name: &'static str)
        ensures
            name@ == self.spec_name(),
    {
        match self {
            OsType::Linux => "Linux",
            OsType::Darwin => "Darwin",
            OsType::WindowsNt => "Windows_NT",
        }
    }

    /// The value that the host reports under the given name, and none
    /// where it reports none under it.
    pub open spec fn spec_from_name(name: Seq<char>) -> Option<OsType> {
        if name == "Linux"@ {
            Some(OsType::Linux)
        } else if name == "Darwin"@ {
            Some(OsType::Darwin)
        } else if name == "Windows_NT"@ {
            Some(OsType::WindowsNt)
        } else {
            None
        }
    }

    /// No two values share a name: reading back the name of a value gives
    /// the value.
    pub proof fn lemma_name_round_trip(value: OsType)
        ensures
            Self::spec_from_name(value.spec_name()) == Some(value),
    {
        reveal_strlit("Linux");
        reveal_strlit("Darwin");
        reveal_strlit("Windows_NT");
        assert("Linux"@.len() == 5 && "Linux"@[0] == 'L');
        assert("Darwin"@.len() == 6 && "Darwin"@[0] == 'D');
        assert("Windows_NT"@.len() == 10 && "Windows_NT"@[0] == 'W');
    }

    pub fn from_name(name: &str) -> (found: Option<OsType>)
        ensures
            found == Self::spec_from_name(name@),
            found matches Some(value) ==> value.spec_name() == name@,
            found.is_none() ==> forall|value: OsType| value.spec_name() != name@,
    {
        if text_eq(name, "Linux") {
            Some(OsType::Linux)
        } else if text_eq(name, "Darwin") {
            Some(OsType::Darwin)
        } else if text_eq(name, "Windows_NT") {
            Some(OsType::WindowsNt)
        } else {
            assert forall|value: OsType| value.spec_name() != name@ by {
                match value {
                    OsType::Linux => {},
                    OsType::Darwin => {},
                    OsType::WindowsNt => {},
                }
            }
            None
        }
    }

    /// Every value, in declaration order.
    pub fn all_variants() -> (all: Vec<OsType>)
        ensures
            all@ == seq![OsType::Linux, OsType::Darwin, OsType::WindowsNt],
    {
        vec![OsType::Linux, OsType::Darwin, OsType::WindowsNt]
    }
}

/// The operating system platforms.
#[derive(Debug, Clone, Copy, PartialEq, Eq, Structural, PartialOrd, Ord)]
pub enum Platform {
    Linux,
    Darwin,
    IOS,
    FreeBSD,
    Dragonfly,
    NetBSD,
    OpenBSD,
    Solaris,
    Android,
    Win32,
}

impl Platform {
    /// The name under which the host reports the value.
    pub open spec fn spec_name(self) -> Seq<char> {
        match self {
            Platform::Linux => "linux"@,
            Platform::Darwin => "darwin"@,
            Platform::IOS => "ios"@,
            Platform::FreeBSD => "freebsd"@,
            Platform::Dragonfly => "dragonfly"@,
            Platform::NetBSD => "netbsd"@,
            Platform::OpenBSD => "openbsd"@,
            Platform::Solaris => "solaris"@,
            Platform::Android => "android"@,
            Platform::Win32 => "win32"@,
        }
    }

    pub fn name(&self) -> (name: &'static str)
        ensures
            name@ == self.spec_name(),
    {
        match self {
            Platform::Linux => "linux",
            Platform::Darwin => "darwin",
            Platform::IOS => "ios",
            Platform::FreeBSD => "freebsd",
            Platform::Dragonfly => "dragonfly",
            Platform::NetBSD => "netbsd",
            Platform::OpenBSD => "openbsd",
            Platform::Solaris => "solaris",
            Platform::Android => "android",
            Platform::Win32 => "win32",
        }
    }

    /// The value that the host reports under the given name, and none
    /// where it reports none under it.
    pub open spec fn spec_from_name(name: Seq<char>) -> Option<Platform> {
        if name == "linux"@ {
            Some(Platform::Linux)
        } else if name == "darwin"@ {
            Some(Platform::Darwin)
        } else if name == "ios"@ {
            Some(Platform::IOS)
        } else if name == "freebsd"@ {
            Some(Platform::FreeBSD)
        } else if name == "dragonfly"@ {
            Some(Platform::Dragonfly)
        } else if name == "netbsd"@ {
            Some(Platform::NetBSD)
        } else if name == "openbsd"@ {
            Some(Platform::OpenBSD)
        } else if name == "solaris"@ {
            Some(Platform::Solaris)
        } else if name == "android"@ {
            Some(Platform::Android)
        } else if name == "win32"@ {
            Some(Platform::Win32)
        } else {
            None
        }
    }

    /// No two values share a name: reading back the name of a value gives
    /// the value.
    pub proof fn lemma_name_round_trip(value: Platform)
        ensures
            Self::spec_from_name(value.spec_name()) == Some(value),
    {
        reveal_strlit("linux");
        reveal_strlit("darwin");
        reveal_strlit("ios");
        reveal_strlit("freebsd");
        reveal_strlit("dragonfly");
        reveal_strlit("netbsd");
        reveal_strlit("openbsd");
        reveal_strlit("solaris");
        reveal_strlit("android");
        reveal_strlit("win32");
        assert("linux"@.len() == 5 && "linux"@[0] == 'l');
        assert("darwin"@.len() == 6 && "darwin"@[0] == 'd');
        assert("ios"@.len() == 3 && "ios"@[0] == 'i');
        assert("freebsd"@.len() == 7 && "freebsd"@[0] == 'f');
        assert("dragonfly"@.len() == 9 && "dragonfly"@[0] == 'd');
        assert("netbsd"@.len() == 6 && "netbsd"@[0] == 'n');
        assert("openbsd"@.len() == 7 && "openbsd"@[0] == 'o');
        assert("solaris"@.len() == 7 && "solaris"@[0] == 's');
        assert("android"@.len() == 7 && "android"@[0] == 'a');
        assert("win32"@.len() == 5 && "win32"@[0] == 'w');
    }

    pub fn from_name(name: &str) -> (found: Option<Platform>)
        ensures
            found == Self::spec_from_name(name@),
            found matches Some(value) ==> value.spec_name() == name@,
            found.is_none() ==> forall|value: Platform| value.spec_name() != name@,
    {
        if text_eq(name, "linux") {
            Some(Platform::Linux)
        } else if text_eq(name, "darwin") {
            Some(Platform::Darwin)
        } else if text_eq(name, "ios") {
            Some(Platform::IOS)
        } else if text_eq(name, "freebsd") {
            Some(Platform::FreeBSD)
        } else if text_eq(name, "dragonfly") {
            Some(Platform::Dragonfly)
        } else if text_eq(name, "netbsd") {
            Some(Platform::NetBSD)
        } else if text_eq(name, "openbsd") {
            Some(Platform::OpenBSD)
        } else if text_eq(name, "solaris") {
            Some(Platform::Solaris)
        } else if text_eq(name, "android") {
            Some(Platform::Android)
        } else if text_eq(name, "win32") {
            Some(Platform::Win32)
        } else {
            assert forall|value: Platform| value.spec_name() != name@ by {
                match value {
                    Platform::Linux => {},
                    Platform::Darwin => {},
                    Platform::IOS => {},
                    Platform::FreeBSD => {},
                    Platform::Dragonfly => {},
                    Platform::NetBSD => {},
                    Platform::OpenBSD => {},
                    Platform::Solaris => {},
                    Platform::Android => {},
                    Platform::Win32 => {},
                }
            }
            None
        }
    }

    /// Every value, in declaration order.
    pub fn all_variants() -> (all: Vec<Platform>)
        ensures
            all@ == seq![
                Platform::Linux,
                Platform::Darwin,
                Platform::IOS,
                Platform::FreeBSD,
                Platform::Dragonfly,
                Platform::NetBSD,
                Platform::OpenBSD,
                Platform::Solaris,
                Platform::Android,
                Platform::Win32,
            ],
    {
        vec![
            Platform::Linux,
            Platform::Darwin,
            Platform::IOS,
            Platform::FreeBSD,
            Platform::Dragonfly,
            Platform::NetBSD,
            Platform::OpenBSD,
            Platform::Solaris,
            Platform::Android,
            Platform::Win32,
        ]
    }
}

/// What the host says of its operating system once and for all.
#[derive(Debug, Clone)]
pub struct HostOs {
    /// The end-of-line marker: a line feed on POSIX, a carriage return and
    /// a line feed on Windows.
    pub eol: String,
}

/// The end-of-line marker of the host's operating system, as the host gave
/// it.
pub fn eol(host: &HostOs) -> (marker: String)
    ensures
        marker == host.eol,
{
    host.eol.clone()
}

} // verus!
