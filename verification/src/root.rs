//! The sandbox root: the one directory a command may treat as its working and
//! writable area.
//!
//! The host computes the raw canonical path of the current directory (an
//! operation on the process environment) and hands the text here;
//! normalization and the non-emptiness invariant are verified.

use vstd::prelude::*;

verus! {

/// A canonicalized path carrying the Windows verbatim prefix `\\?\`, which
/// must be stripped before the path is shown or handed to other programs.
pub open spec fn has_verbatim_prefix(s: Seq<char>) -> bool {
    s.len() >= 4 && s[0] == '\\' && s[1] == '\\' && s[2] == '?' && s[3] == '\\'
}

/// What the resolver makes of a raw canonicalized path: the verbatim prefix
/// is stripped, and an empty path falls back to the relative marker for the
/// current directory, so command execution stays best-effort.
pub open spec fn normalized_root(raw: Seq<char>) -> Seq<char> {
    let stripped = if has_verbatim_prefix(raw) {
        raw.subrange(4, raw.len() as int)
    } else {
        raw
    };
    if stripped.len() == 0 {
        seq!['.']
    } else {
        stripped
    }
}

/// The working directory all commands run in.  Immutable once resolved;
/// never empty.
pub struct SandboxRoot {
    pub path: String,
}

impl View for SandboxRoot {
    type V = Seq<char>;

    open spec fn view(&self) -> Seq<char> {
        self.path@
    }
}

impl SandboxRoot {
    /// The root invariant: the path is never empty.
    pub open spec fn wf(&self) -> bool {
        self@.len() > 0
    }

    /// Builds the sandbox root from the raw canonicalized text of the current
    /// directory.
    pub fn from_raw(raw: &str) -> (r: SandboxRoot)
        ensures
            r@ == normalized_root(raw@),
            r.wf(),
    {
        let n = raw.unicode_len();
        let stripped: &str = if n >= 4 && raw.get_char(0) == '\\' && raw.get_char(1) == '\\'
            && raw.get_char(2) == '?' && raw.get_char(3) == '\\' {
            raw.substring_char(4, n)
        } else {
            raw
        };
        if stripped.unicode_len() == 0 {
            let dot = String::from_str(".");
            proof {
                reveal_strlit(".");
                assert(dot@ =~= normalized_root(raw@));
            }
            SandboxRoot { path: dot }
        } else {
            SandboxRoot { path: String::from_str(stripped) }
        }
    }

    /// The path as text, for display and for fixing a child's working
    /// directory.
    pub fn as_str(&self) -> (s: &str)
        ensures
            s@ == self@,
    {
        self.path.as_str()
    }
}

} // verus!
