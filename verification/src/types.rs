//! The system-type catalog: the operating-system identifier reported by the
//! SYST command.

use vstd::prelude::*;

verus! {

/// An IPv4 address, as the four octets that PASV and PORT put on the wire.
#[derive(Debug, Clone, Copy, PartialEq, Eq, Structural)]
pub struct Ipv4Addr {
    pub o1: u8,
    pub o2: u8,
    pub o3: u8,
    pub o4: u8,
}

/// The operating systems the server can report to a SYST query.
#[derive(Debug, Clone, Copy, PartialEq, Eq, Structural)]
pub enum SystemType {
    Unix,
    Windows,
    MacOS,
    Linux,
    Android,
    Ios,
    Unknown,
}

/// The official system name reported for each [`SystemType`].
pub open spec fn spec_system_name(t: SystemType) -> Seq<char> {
    match t {
        SystemType::Unix => "UNIX Type: L8"@,
        SystemType::Windows => "Windows_NT"@,
        SystemType::MacOS => "MACOS Type: L8"@,
        SystemType::Linux => "UNIX Type: L8"@,
        SystemType::Android => "Android Type: L8"@,
        SystemType::Ios => "IOS Type: L8"@,
        SystemType::Unknown => "Unknown Type: L8"@,
    }
}

/// The wire name of a host operating system, as a SYST reply reports it.
#[derive(Debug, Clone)]
pub struct System {
    name: &'static str,
}

impl View for System {
    type V = Seq<char>;

    /// A system is abstractly its wire name.
    closed spec fn view(&self) -> Seq<char> {
        self.name@
    }
}

impl System {
    /// The system that a [`SystemType`] is reported as.
    pub fn from(system: SystemType) -> (r: Self)
        ensures
            r@ == spec_system_name(system),
    {
        match system {
            SystemType::Unix => Self { name: "UNIX Type: L8" },
            SystemType::Windows => Self { name: "Windows_NT" },
            SystemType::MacOS => Self { name: "MACOS Type: L8" },
            SystemType::Linux => Self { name: "UNIX Type: L8" },
            SystemType::Android => Self { name: "Android Type: L8" },
            SystemType::Ios => Self { name: "IOS Type: L8" },
            SystemType::Unknown => Self { name: "Unknown Type: L8" },
        }
    }

    /// The official system name.
    pub fn name(&self) -> (r: &'static str)
        ensures
            r@ == self@,
    {
        self.name
    }

    /// The official system name as an owned string.
    pub fn to_string(&self) -> (r: String)
        ensures
            r@ == self@,
    {
        String::from_str(self.name)
    }
}

impl SystemType {
    /// The system type a given operating-system identifier (in the shape of
    /// `std::env::consts::OS`) maps to; identifiers outside the known set map
    /// to [`SystemType::Unknown`].
    pub fn from_os_name(os: &str) -> (r: Self)
        ensures
            r == spec_system_type_of_os(os@),
    {
        if crate::text::str_eq(os, "linux") {
            SystemType::Linux
        } else if crate::text::str_eq(os, "macos") {
            SystemType::MacOS
        } else if crate::text::str_eq(os, "windows") {
            SystemType::Windows
        } else if crate::text::str_eq(os, "android") {
            SystemType::Android
        } else if crate::text::str_eq(os, "ios") {
            SystemType::Ios
        } else {
            SystemType::Unknown
        }
    }

    /// The name this system type is rendered as on the wire.
    pub fn to_string(&self) -> (r: String)
        ensures
            r@ == spec_system_name(*self),
    {
        System::from(*self).to_string()
    }
}

/// The [`SystemType`] that an operating-system identifier maps to.
pub open spec fn spec_system_type_of_os(os: Seq<char>) -> SystemType {
    if os == "linux"@ {
        SystemType::Linux
    } else if os == "macos"@ {
        SystemType::MacOS
    } else if os == "windows"@ {
        SystemType::Windows
    } else if os == "android"@ {
        SystemType::Android
    } else if os == "ios"@ {
        SystemType::Ios
    } else {
        SystemType::Unknown
    }
}

} // verus!
