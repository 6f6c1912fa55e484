//! The platforms on which modules can be loaded, and the file names that
//! modules bear on each.

use vstd::prelude::*;
use vstd::string::*;

use crate::wrappers::is_tail_pattern;

verus! {

/// A platform with a native format of loadable modules.
#[derive(Copy, Clone, PartialEq, Eq, Debug, Structural)]
pub enum Platform {
    /// Windows, where module files end with `.dll`.
    Windows,
    /// Linux, where module files end with `.so`.
    Linux,
    /// macOS, where module files end with `.dylib`.
    MacOs,
}

impl Platform {
    /// The platform that goes by the name `os`, as the standard library
    /// spells the name of the operating system.
    pub open spec fn named(os: Seq<char>) -> Option<Platform> {
        if os == "windows"@ {
            Some(Platform::Windows)
        } else if os == "linux"@ {
            Some(Platform::Linux)
        } else if os == "macos"@ {
            Some(Platform::MacOs)
        } else {
            None
        }
    }

    /// The suffix of a module file's name on this platform.
    pub open spec fn suffix_text(self) -> Seq<char> {
        match self {
            Platform::Windows => ".dll"@,
            Platform::Linux => ".so"@,
            Platform::MacOs => ".dylib"@,
        }
    }

    /// The pattern that the names of module files match: any characters,
    /// then the suffix.
    pub open spec fn file_pattern_text(self) -> Seq<char> {
        seq!['*'] + self.suffix_text()
    }

    /// Finds the platform of the given name. Any other name belongs to a
    /// platform without a known module format, on which no registry can be
    /// made.
    pub fn from_os_name(os: &str) -> (platform: Option<Platform>)
        ensures
            platform == Self::named(os@),
    {
        if os.eq("windows") {
            Some(Platform::Windows)
        } else if os.eq("linux") {
            Some(Platform::Linux)
        } else if os.eq("macos") {
            Some(Platform::MacOs)
        } else {
            None
        }
    }

    /// The suffix of a module file's name on this platform.
    pub fn suffix(self) -> (suffix: &'static str)
        ensures
            suffix@ == self.suffix_text(),
    {
        match self {
            Platform::Windows => ".dll",
            Platform::Linux => ".so",
            Platform::MacOs => ".dylib",
        }
    }

    /// The pattern that the names of module files match on this platform.
    pub fn file_pattern(self) -> (pattern: String)
        ensures
            pattern@ == self.file_pattern_text(),
    {
        proof {
            reveal_strlit("*");
        }
        let mut pattern = "*".to_owned();
        pattern.append(self.suffix());
        assert(pattern@ =~= self.file_pattern_text());
        pattern
    }

    /// The three suffixes are spelled out here, character by character.
    pub proof fn lemma_suffix_spelling(self)
        ensures
            self == Platform::Windows ==> self.suffix_text() == seq!['.', 'd', 'l', 'l'],
            self == Platform::Linux ==> self.suffix_text() == seq!['.', 's', 'o'],
            self == Platform::MacOs ==> self.suffix_text() == seq!['.', 'd', 'y', 'l', 'i', 'b'],
    {
        reveal_strlit(".dll");
        reveal_strlit(".so");
        reveal_strlit(".dylib");
        assert(".dll"@ =~= seq!['.', 'd', 'l', 'l']);
        assert(".so"@ =~= seq!['.', 's', 'o']);
        assert(".dylib"@ =~= seq!['.', 'd', 'y', 'l', 'i', 'b']);
    }

    /// The pattern for a module file's name is one `*` and then characters
    /// that stand for themselves.
    pub proof fn lemma_file_pattern_is_plain(self)
        ensures
            is_tail_pattern(self.file_pattern_text()),
    {
        self.lemma_suffix_spelling();
    }

    /// The three platform names are told apart: each names its own platform.
    pub proof fn lemma_names()
        ensures
            Self::named("windows"@) == Some(Platform::Windows),
            Self::named("linux"@) == Some(Platform::Linux),
            Self::named("macos"@) == Some(Platform::MacOs),
    {
        reveal_strlit("windows");
        reveal_strlit("linux");
        reveal_strlit("macos");
        assert("windows"@.len() == 7 && "linux"@.len() == 5);
        assert("macos"@[0] == 'm' && "linux"@[0] == 'l');
    }
}

} // verus!
