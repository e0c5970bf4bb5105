use vstd::prelude::*;

verus! {

/// The operating systems that release builds run on.
#[derive(Clone, Copy, Debug, PartialEq, Eq, Structural)]
pub enum Platform {
    Windows,
    Linux,
    Mac,
}

/// The CPU architectures that release builds target.
#[derive(Clone, Copy, Debug, PartialEq, Eq, Structural)]
pub enum Arch {
    X86_64,
    AARCH64,
}

/// The name under which an architecture appears in target triples.
pub open spec fn arch_name_spec(arch: Arch) -> Seq<char> {
    match arch {
        Arch::X86_64 => "x86_64"@,
        Arch::AARCH64 => "aarch64"@,
    }
}

impl Arch {
    /// The name of the architecture as it appears in target triples
    /// (`x86_64`, `aarch64`).
    pub fn name(&self) -> (r: &'static str)
        ensures
            r@ == arch_name_spec(*self),
    {
        match self {
            Arch::X86_64 => "x86_64",
            Arch::AARCH64 => "aarch64",
        }
    }
}

} // verus!
