use vstd::prelude::*;

verus! {

/// The operating systems that provisioning knows how to serve.
#[derive(Clone, Copy, Debug, PartialEq, Eq, Structural)]
pub enum Platform {
    Windows,
    MacOs,
    Linux,
    Unsupported,
}

/// The platform named by an operating-system identifier such as `"linux"`.
pub open spec fn platform_of(os: Seq<char>) -> Platform {
    if os == "windows"@ {
        Platform::Windows
    } else if os == "macos"@ {
        Platform::MacOs
    } else if os == "linux"@ {
        Platform::Linux
    } else {
        Platform::Unsupported
    }
}

/// An owned copy of `s`.
pub fn text(s: &str) -> (r: String)
    ensures
        r@ == s@,
{
    s.to_owned()
}

/// Whether two strings hold the same characters.
pub fn same_text(a: &str, b: &str) -> (r: bool)
    ensures
        r == (a@ == b@),
{
    text(a) == text(b)
}

impl Platform {
    /// The platform for an operating-system identifier.
    pub fn from_os(os: &str) -> (r: Platform)
        ensures
            r == platform_of(os@),
    {
        if same_text(os, "windows") {
            Platform::Windows
        } else if same_text(os, "macos") {
            Platform::MacOs
        } else if same_text(os, "linux") {
            Platform::Linux
        } else {
            Platform::Unsupported
        }
    }

    /// Whether the platform has POSIX file permissions.
    pub open spec fn is_posix(self) -> bool {
        self == Platform::MacOs || self == Platform::Linux
    }
}

/// Whether an architecture identifier names 64-bit ARM.
pub fn is_arm64(arch: &str) -> (r: bool)
    ensures
        r == (arch@ == "aarch64"@),
{
    same_text(arch, "aarch64")
}

/// `a` followed by `b`.
pub fn join(a: &str, b: &str) -> (r: String)
    ensures
        r@ == a@ + b@,
{
    let mut t = text(a);
    t.append(b);
    t
}

} // verus!
