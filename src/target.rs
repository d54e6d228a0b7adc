//! The closed set of operating system and architecture pairs a bundle can be
//! built for, with parsing from user input and canonical rendering.

use vstd::prelude::*;

verus! {

/// The architecture of a target. `X64` renders as `x86_64` and `X86_64`
/// renders as `x86`; bundle paths depend on this mapping.
#[derive(Clone, Copy, Debug, PartialEq, Eq, Structural)]
pub enum Arch {
    X64,
    X86_64,
}

/// An operating system, with the architecture where the layout depends on it.
#[derive(Clone, Copy, Debug, PartialEq, Eq, Structural)]
pub enum Target {
    Windows(Arch),
    Mac,
    Linux(Arch),
}

/// A target string that matches no known alias; holds the string as given.
#[derive(Debug)]
pub enum TargetError {
    UnrecognizedTarget(String),
}

/// What `str::to_lowercase` returns for a string.
pub uninterp spec fn lower_of(s: Seq<char>) -> Seq<char>;

/// Whether every character of a string is ASCII.
pub open spec fn is_ascii_text(s: Seq<char>) -> bool {
    forall|i: int| 0 <= i < s.len() ==> (#[trigger] s[i] as u32) < 128
}

/// An ASCII character in lowercase: `A` to `Z` become `a` to `z`, every other
/// character stays.
pub open spec fn lower_ascii_char(c: char) -> char {
    if 'A' <= c && c <= 'Z' {
        ((c as u32) + 32) as char
    } else {
        c
    }
}

/// A string with its ASCII capitals lowercased.
pub open spec fn lower_ascii(s: Seq<char>) -> Seq<char> {
    s.map_values(|c: char| lower_ascii_char(c))
}

/// Relies on `str::to_lowercase`: the result depends on the characters alone,
/// and on an ASCII string it lowercases `A` to `Z` and keeps every other
/// character.
#[verifier::external_body]
pub(crate) fn lowercase(s: &str) -> (r: String)
    ensures
        r@ == lower_of(s@),
        is_ascii_text(s@) ==> r@ == lower_ascii(s@),
{
    s.to_lowercase()
}

/// Whether a string holds exactly the characters of a literal.
pub(crate) fn same_text(s: &str, lit: &str) -> (r: bool)
    ensures
        r == (s@ == lit@),
{
    let a = s.to_owned();
    let b = lit.to_owned();
    a == b
}

/// The target named by an already lowercased alias, if any.
pub open spec fn target_alias(s: Seq<char>) -> Option<Target> {
    if s == "windows"@ || s == "windows-x64"@ {
        Some(Target::Windows(Arch::X64))
    } else if s == "windows-x86"@ || s == "windows-x86_64"@ {
        Some(Target::Windows(Arch::X86_64))
    } else if s == "linux"@ || s == "linux-x64"@ {
        Some(Target::Linux(Arch::X64))
    } else if s == "linux-x86"@ || s == "linux-x86_64"@ {
        Some(Target::Linux(Arch::X86_64))
    } else if s == "mac"@ || s == "macos"@ || s == "apple"@ {
        Some(Target::Mac)
    } else {
        None
    }
}

/// The canonical string of an architecture.
pub open spec fn arch_text(a: Arch) -> Seq<char> {
    match a {
        Arch::X64 => "x86_64"@,
        Arch::X86_64 => "x86"@,
    }
}

/// The canonical string of a target.
pub open spec fn target_text(t: Target) -> Seq<char> {
    match t {
        Target::Windows(a) => "windows-"@ + arch_text(a),
        Target::Mac => "mac"@,
        Target::Linux(a) => "linux-"@ + arch_text(a),
    }
}

/// The target a host operating system and architecture (as Rust names them)
/// builds for, if any.
pub open spec fn host_target(os: Seq<char>, arch: Seq<char>) -> Option<Target> {
    if os == "linux"@ && arch == "x86_64"@ {
        Some(Target::Linux(Arch::X64))
    } else if os == "linux"@ && arch == "x86"@ {
        Some(Target::Linux(Arch::X86_64))
    } else if os == "macos"@ {
        Some(Target::Mac)
    } else if os == "windows"@ && arch == "x86_64"@ {
        Some(Target::Windows(Arch::X64))
    } else if os == "windows"@ && arch == "x86"@ {
        Some(Target::Windows(Arch::X86_64))
    } else {
        None
    }
}

/// Parsing a canonical string and rendering the result gives the string
/// back, for `windows-x86`, `linux-x86` and `mac`; each is ASCII and
/// lowercasing keeps it. The two strings that end in
/// `x86_64` are aliases of the `X86_64` variant, which renders as `x86`.
pub proof fn lemma_canonical_round_trip(s: Seq<char>)
    requires
        s == "windows-x86"@ || s == "linux-x86"@ || s == "mac"@,
    ensures
        is_ascii_text(s),
        lower_ascii(s) == s,
        target_alias(s) is Some,
        target_text(target_alias(s)->Some_0) == s,
{
    reveal_strlit("windows-");
    reveal_strlit("linux-");
    reveal_strlit("x86");
    reveal_strlit("mac");
    reveal_strlit("windows");
    reveal_strlit("windows-x64");
    reveal_strlit("windows-x86");
    reveal_strlit("linux");
    reveal_strlit("linux-x64");
    reveal_strlit("linux-x86");
    reveal_strlit("windows-x86_64");
    reveal_strlit("linux-x86_64");
    reveal_strlit("macos");
    reveal_strlit("apple");
    assert(is_ascii_text(s));
    assert(lower_ascii(s) =~= s);
    if s == "windows-x86"@ {
        assert(s.len() != "windows"@.len() && s[9] != "windows-x64"@[9]);
        assert("windows-"@ + "x86"@ =~= s);
    } else if s == "linux-x86"@ {
        assert(s[0] != "windows"@[0] && s[0] != "windows-x64"@[0]);
        assert(s[0] != "windows-x86"@[0] && s[0] != "windows-x86_64"@[0]);
        assert(s[8] != "linux-x64"@[8]);
        assert("linux-"@ + "x86"@ =~= s);
    } else {
        assert(s[0] != "windows"@[0] && s[0] != "windows-x64"@[0]);
        assert(s[0] != "windows-x86"@[0] && s[0] != "windows-x86_64"@[0]);
        assert(s[0] != "linux"@[0] && s[0] != "linux-x64"@[0]);
        assert(s[0] != "linux-x86"@[0] && s[0] != "linux-x86_64"@[0]);
    }
}

impl Arch {
    /// The canonical string: `x86_64` or `x86`.
    pub fn render(&self) -> (r: String)
        ensures
            r@ == arch_text(*self),
    {
        match self {
            Arch::X64 => String::from_str("x86_64"),
            Arch::X86_64 => String::from_str("x86"),
        }
    }
}

impl Target {
    /// Maps a lowercased alias to its target.
    pub fn parse_lowercase(s: &str) -> (r: Option<Target>)
        ensures
            r == target_alias(s@),
    {
        if same_text(s, "windows") || same_text(s, "windows-x64") {
            Some(Target::Windows(Arch::X64))
        } else if same_text(s, "windows-x86") || same_text(s, "windows-x86_64") {
            Some(Target::Windows(Arch::X86_64))
        } else if same_text(s, "linux") || same_text(s, "linux-x64") {
            Some(Target::Linux(Arch::X64))
        } else if same_text(s, "linux-x86") || same_text(s, "linux-x86_64") {
            Some(Target::Linux(Arch::X86_64))
        } else if same_text(s, "mac") || same_text(s, "macos") || same_text(s, "apple") {
            Some(Target::Mac)
        } else {
            None
        }
    }

    /// Parses a target alias, ignoring case.
    pub fn parse(s: &str) -> (r: Result<Target, TargetError>)
        ensures
            match r {
                Ok(t) => target_alias(lower_of(s@)) == Some(t),
                Err(TargetError::UnrecognizedTarget(given)) => target_alias(lower_of(s@)) is None
                    && given@ == s@,
            },
            is_ascii_text(s@) ==> match r {
                Ok(t) => target_alias(lower_ascii(s@)) == Some(t),
                Err(_) => target_alias(lower_ascii(s@)) is None,
            },
    {
        let lowered = lowercase(s);
        match Target::parse_lowercase(lowered.as_str()) {
            Some(t) => Ok(t),
            None => Err(TargetError::UnrecognizedTarget(s.to_owned())),
        }
    }

    /// The canonical string: `windows-<arch>`, `mac` or `linux-<arch>`.
    pub fn render(&self) -> (r: String)
        ensures
            r@ == target_text(*self),
    {
        match self {
            Target::Windows(a) => {
                let mut s = String::from_str("windows-");
                let arch = a.render();
                s.append(arch.as_str());
                s
            },
            Target::Mac => String::from_str("mac"),
            Target::Linux(a) => {
                let mut s = String::from_str("linux-");
                let arch = a.render();
                s.append(arch.as_str());
                s
            },
        }
    }

    /// The target of a host, given its operating system and architecture
    /// names as Rust reports them (`linux`, `macos`, `windows`; `x86_64`,
    /// `x86`).
    pub fn from_host(os: &str, arch: &str) -> (r: Option<Target>)
        ensures
            r == host_target(os@, arch@),
    {
        if same_text(os, "linux") && same_text(arch, "x86_64") {
            Some(Target::Linux(Arch::X64))
        } else if same_text(os, "linux") && same_text(arch, "x86") {
            Some(Target::Linux(Arch::X86_64))
        } else if same_text(os, "macos") {
            Some(Target::Mac)
        } else if same_text(os, "windows") && same_text(arch, "x86_64") {
            Some(Target::Windows(Arch::X64))
        } else if same_text(os, "windows") && same_text(arch, "x86") {
            Some(Target::Windows(Arch::X86_64))
        } else {
            None
        }
    }
}

} // verus!
