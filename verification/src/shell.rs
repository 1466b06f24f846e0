//! Enumerate shells and shell behavior.
use vstd::prelude::*;
use vstd::string::StrSliceExecFns;

use crate::util::chars_to_string;

verus! {

/// A target shell. Bash and Zsh share one rendering path.
#[derive(Debug, Clone, Copy, PartialEq, Eq, Structural)]
pub enum Shell {
    Bash,
    Zsh,
    Fish,
    Powershell,
}

/// The shell a case-sensitive name denotes, with the shell-specific
/// aliases `sh`, `ps` and `pwsh`.
pub open spec fn shell_of_name(s: Seq<char>) -> Option<Shell> {
    if s == "bash"@ || s == "sh"@ {
        Some(Shell::Bash)
    } else if s == "zsh"@ {
        Some(Shell::Zsh)
    } else if s == "fish"@ {
        Some(Shell::Fish)
    } else if s == "pwsh"@ || s == "ps"@ || s == "powershell"@ {
        Some(Shell::Powershell)
    } else {
        None
    }
}

/// The canonical name of a shell.
pub open spec fn spec_shell_name(s: Shell) -> Seq<char> {
    match s {
        Shell::Bash => "bash"@,
        Shell::Zsh => "zsh"@,
        Shell::Fish => "fish"@,
        Shell::Powershell => "powershell"@,
    }
}

/// The suffix of `s` after its last `/`; `s` itself when it holds none.
pub open spec fn after_last_slash(s: Seq<char>) -> Seq<char>
    decreases s.len(),
{
    if s.len() == 0 {
        Seq::empty()
    } else if s.last() == '/' {
        Seq::empty()
    } else {
        after_last_slash(s.drop_last()) + seq![s.last()]
    }
}

impl Shell {
    /// Parse a shell name, accepting the aliases `sh`, `ps` and `pwsh`.
    pub fn from_str(s: &str) -> (r: Option<Shell>)
        ensures
            r == shell_of_name(s@),
    {
        if crate::util::str_eq(s, "bash") || crate::util::str_eq(s, "sh") {
            Some(Shell::Bash)
        } else if crate::util::str_eq(s, "zsh") {
            Some(Shell::Zsh)
        } else if crate::util::str_eq(s, "fish") {
            Some(Shell::Fish)
        } else if crate::util::str_eq(s, "pwsh") || crate::util::str_eq(s, "ps")
            || crate::util::str_eq(s, "powershell") {
            Some(Shell::Powershell)
        } else {
            None
        }
    }

    /// The canonical name, as it is written on the command line.
    pub fn name(&self) -> (r: String)
        ensures
            r@ == spec_shell_name(*self),
    {
        match *self {
            Shell::Bash => "bash".to_owned(),
            Shell::Zsh => "zsh".to_owned(),
            Shell::Fish => "fish".to_owned(),
            Shell::Powershell => "powershell".to_owned(),
        }
    }

    /// Resolve the active shell from the value of the `SHELL` environment
    /// signal, which the caller reads and injects: the final path segment of
    /// the executable path is parsed as a shell name.
    ///
    /// Example: a value of `/usr/bin/zsh` gives `Some(Shell::Zsh)`.
    pub fn from_env(shell_var: Option<&str>) -> (r: Option<Shell>)
        ensures
            r == match shell_var {
                Some(p) => shell_of_name(after_last_slash(p@)),
                None => None::<Shell>,
            },
    {
        match shell_var {
            None => None,
            Some(p) => {
                let n = p.unicode_len();
                let mut seg: Vec<char> = Vec::new();
                let mut i: usize = 0;
                proof {
                    assert(p@.take(0) =~= Seq::<char>::empty());
                }
                while i < n
                    invariant
                        n == p@.len(),
                        i <= n,
                        seg@ == after_last_slash(p@.take(i as int)),
                    decreases n - i,
                {
                    let c = p.get_char(i);
                    proof {
                        let t = p@.take(i as int + 1);
                        assert(t.last() == c);
                        assert(t.drop_last() =~= p@.take(i as int));
                    }
                    if c == '/' {
                        seg.clear();
                    } else {
                        seg.push(c);
                    }
                    i += 1;
                }
                proof {
                    assert(p@.take(n as int) =~= p@);
                }
                let name = chars_to_string(seg);
                Shell::from_str(name.as_str())
            },
        }
    }
}

} // verus!
