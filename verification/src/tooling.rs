//! Value types and pure helpers of the build tooling.
//!
//! The tooling's process handling lives outside the library; here stand the
//! platform, package and version selectors it works with, the target-triple
//! lookup, and the path normalization helper.

use vstd::prelude::*;
use vstd::string::StringExecFns;
use vstd::string::StrSliceExecFns;

verus! {

/// The boards a package can be built for.
#[derive(Debug, Clone, Copy, PartialEq, Eq, Structural)]
pub enum Platform {
    /// Raspberry Pi 5.
    Pi5,
    /// Raspberry Pi 4.
    Pi4,
    /// Raspberry Pi 3.
    Pi3,
    /// Raspberry Pi Zero.
    PiZero,
}

impl Platform {
    /// The Rust target triple this platform is built for.
    pub open spec fn spec_target(self) -> Seq<char> {
        match self {
            Platform::Pi5 => "aarch64-unknown-linux-gnu"@,
            Platform::Pi4 => "armv7-unknown-linux-gnueabihf"@,
            Platform::Pi3 => "armv7-unknown-linux-gnueabihf"@,
            Platform::PiZero => "arm-unknown-linux-gnueabihf"@,
        }
    }

    /// The command-line rendering of this platform.
    pub open spec fn spec_name(self) -> Seq<char> {
        match self {
            Platform::Pi5 => "pi5"@,
            Platform::Pi4 => "pi4"@,
            Platform::Pi3 => "pi3"@,
            Platform::PiZero => "pi-zero"@,
        }
    }

    /// Returns the Rust target triple to build for on this platform.
    pub fn target(&self) -> (r: &'static str)
        ensures
            r@ == self.spec_target(),
    {
        match self {
            Platform::Pi5 => "aarch64-unknown-linux-gnu",
            Platform::Pi4 => "armv7-unknown-linux-gnueabihf",
            Platform::Pi3 => "armv7-unknown-linux-gnueabihf",
            Platform::PiZero => "arm-unknown-linux-gnueabihf",
        }
    }

    /// Returns the command-line rendering of this platform.
    pub fn as_str(&self) -> (r: &'static str)
        ensures
            r@ == self.spec_name(),
    {
        match self {
            Platform::Pi5 => "pi5",
            Platform::Pi4 => "pi4",
            Platform::Pi3 => "pi3",
            Platform::PiZero => "pi-zero",
        }
    }
}

/// The packages of the workspace that the tooling can build.
#[derive(Debug, Clone, Copy, PartialEq, Eq, Structural)]
pub enum Package {
    /// The main hardware abstraction layer.
    EspHal,
    /// The procedural macros of the hardware abstraction layer.
    EspHalProcmacros,
    /// The smart-LED helper package.
    EspHalSmartled,
    /// The low-power hardware abstraction layer.
    EspLpHal,
    /// The RISC-V runtime.
    EspRiscvRt,
    /// The examples package.
    Examples,
}

impl Package {
    /// The command-line rendering of this package.
    pub open spec fn spec_name(self) -> Seq<char> {
        match self {
            Package::EspHal => "esp-hal"@,
            Package::EspHalProcmacros => "esp-hal-procmacros"@,
            Package::EspHalSmartled => "esp-hal-smartled"@,
            Package::EspLpHal => "esp-lp-hal"@,
            Package::EspRiscvRt => "esp-riscv-rt"@,
            Package::Examples => "examples"@,
        }
    }

    /// Returns the command-line rendering of this package.
    pub fn as_str(&self) -> (r: &'static str)
        ensures
            r@ == self.spec_name(),
    {
        match self {
            Package::EspHal => "esp-hal",
            Package::EspHalProcmacros => "esp-hal-procmacros",
            Package::EspHalSmartled => "esp-hal-smartled",
            Package::EspLpHal => "esp-lp-hal",
            Package::EspRiscvRt => "esp-riscv-rt",
            Package::Examples => "examples",
        }
    }
}

/// The part of a semantic version that a bump targets.
#[derive(Debug, Clone, Copy, PartialEq, Eq, Structural)]
pub enum Version {
    /// The major component.
    Major,
    /// The minor component.
    Minor,
    /// The patch component.
    Patch,
}

impl Version {
    /// The command-line rendering of this version part.
    pub open spec fn spec_name(self) -> Seq<char> {
        match self {
            Version::Major => "major"@,
            Version::Minor => "minor"@,
            Version::Patch => "patch"@,
        }
    }

    /// Returns the command-line rendering of this version part.
    pub fn as_str(&self) -> (r: &'static str)
        ensures
            r@ == self.spec_name(),
    {
        match self {
            Version::Major => "major",
            Version::Minor => "minor",
            Version::Patch => "patch",
        }
    }
}

/// True when the four scalar values starting at the head of `s` are the
/// Windows verbatim path prefix.
pub open spec fn verbatim_prefix_at(s: Seq<char>) -> bool {
    s.len() >= 4 && s[0] == '\\' && s[1] == '\\' && s[2] == '?' && s[3] == '\\'
}

/// The text with every occurrence of the Windows verbatim path prefix
/// removed, scanning left to right.
pub open spec fn spec_strip_verbatim(s: Seq<char>) -> Seq<char>
    decreases s.len(),
{
    if s.len() == 0 {
        Seq::empty()
    } else if verbatim_prefix_at(s) {
        spec_strip_verbatim(s.skip(4))
    } else {
        seq![s[0]] + spec_strip_verbatim(s.drop_first())
    }
}

/// Makes a path string "Windows"-safe by removing every occurrence of the
/// verbatim path prefix.
pub fn windows_safe_path(path: &str) -> (r: String)
    ensures
        r@ == spec_strip_verbatim(path@),
{
    let n = path.unicode_len();
    let mut out = String::new();
    let mut seg_start: usize = 0;
    let mut i: usize = 0;
    proof {
        assert(path@.skip(0) =~= path@);
        assert(out@ + path@.subrange(0, 0) + spec_strip_verbatim(path@) =~= spec_strip_verbatim(
            path@,
        ));
    }
    while i < n
        invariant
            seg_start <= i <= n,
            n == path@.len(),
            spec_strip_verbatim(path@) == out@ + path@.subrange(seg_start as int, i as int)
                + spec_strip_verbatim(path@.skip(i as int)),
        decreases n - i,
    {
        if n - i >= 4 && path.get_char(i) == '\\' && path.get_char(i + 1) == '\\' && path.get_char(
            i + 2,
        ) == '?' && path.get_char(i + 3) == '\\' {
            let seg = path.substring_char(seg_start, i);
            out.append(seg);
            proof {
                assert(verbatim_prefix_at(path@.skip(i as int)));
                assert(path@.skip(i as int).skip(4) =~= path@.skip(i as int + 4));
                assert(path@.subrange(i as int + 4, i as int + 4) =~= Seq::<char>::empty());
            }
            i = i + 4;
            seg_start = i;
        } else {
            proof {
                let rest = path@.skip(i as int);
                assert(rest[0] == path@[i as int]);
                assert(!verbatim_prefix_at(rest)) by {
                    if rest.len() >= 4 {
                        assert(rest[1] == path@[i as int + 1]);
                        assert(rest[2] == path@[i as int + 2]);
                        assert(rest[3] == path@[i as int + 3]);
                    }
                }
                assert(rest.drop_first() =~= path@.skip(i as int + 1));
                assert(path@.subrange(seg_start as int, i as int + 1) =~= path@.subrange(
                    seg_start as int,
                    i as int,
                ) + seq![path@[i as int]]);
            }
            i = i + 1;
        }
    }
    let seg = path.substring_char(seg_start, n);
    out.append(seg);
    proof {
        assert(path@.skip(n as int) =~= Seq::<char>::empty());
        assert(out@ =~= spec_strip_verbatim(path@));
    }
    out
}

} // verus!
