//! The platform family a toolchain is installed on, and what differs between
//! the families.

use vstd::prelude::*;

verus! {

/// The target families whose behaviour differs.
#[derive(Clone, Copy, Debug, PartialEq, Eq, Structural)]
pub enum Platform {
    Windows,
    MacOs,
    Unix,
}

impl Platform {
    /// The suffix that names of executables carry.
    pub open spec fn exe_suffix_spec(self) -> Seq<char> {
        match self {
            Platform::Windows => ".exe"@,
            _ => ""@,
        }
    }

    /// The variable that lists the directories searched for shared libraries.
    pub open spec fn loader_path_var_spec(self) -> Seq<char> {
        match self {
            Platform::MacOs => "DYLD_LIBRARY_PATH"@,
            _ => "LD_LIBRARY_PATH"@,
        }
    }

    pub fn exe_suffix(self) -> (suffix: &'static str)
        ensures
            suffix@ == self.exe_suffix_spec(),
    {
        match self {
            Platform::Windows => ".exe",
            _ => "",
        }
    }

    pub fn loader_path_var(self) -> (var: &'static str)
        ensures
            var@ == self.loader_path_var_spec(),
    {
        match self {
            Platform::MacOs => "DYLD_LIBRARY_PATH",
            _ => "LD_LIBRARY_PATH",
        }
    }

    /// Whether a linked installation is a symbolic link that a directory test
    /// does not follow, and whether a spawned process looks for executables in
    /// the directory of its own image before the search path.
    pub fn is_windows(self) -> (windows: bool)
        ensures
            windows == (self is Windows),
    {
        match self {
            Platform::Windows => true,
            _ => false,
        }
    }
}

} // verus!
