//! The command-line surface: one required positional argument naming the
//! configuration source, an optional `-s`/`--shell` option selecting the
//! target shell, and a repeatable `-v`/`--verbose` flag.
use vstd::prelude::*;
use vstd::string::StrSliceExecFns;

use crate::shell::{shell_of_name, Shell};
use crate::util::{str_eq, strs_of};

verus! {

/// The parsed command line.
#[derive(Debug)]
pub struct Cli {
    /// Location of toml file to parse (required).
    pub toml_file: String,
    /// Shell to parse env for.
    pub shell: Shell,
    /// How much logging output goes to the console.
    pub verbosity: u8,
}

/// The mathematical model of a [`Cli`].
pub ghost struct CliV {
    pub toml_file: Seq<char>,
    pub shell: Shell,
    pub verbosity: u8,
}

impl View for Cli {
    type V = CliV;

    open spec fn view(&self) -> CliV {
        CliV { toml_file: self.toml_file@, shell: self.shell, verbosity: self.verbosity }
    }
}

impl PartialEq for Cli {
    fn eq(&self, other: &Self) -> (r: bool) {
        str_eq(self.toml_file.as_str(), other.toml_file.as_str()) && self.shell == other.shell
            && self.verbosity == other.verbosity
    }
}

impl vstd::std_specs::cmp::PartialEqSpecImpl for Cli {
    open spec fn obeys_eq_spec() -> bool {
        true
    }

    open spec fn eq_spec(&self, other: &Self) -> bool {
        self.toml_file@ == other.toml_file@ && self.shell == other.shell && self.verbosity
            == other.verbosity
    }
}

/// The view of an optional string.
pub open spec fn opt_str_view(o: Option<String>) -> Option<Seq<char>> {
    match o {
        Some(s) => Some(s@),
        None => None,
    }
}

/// One pass over the arguments after the program name, threading the
/// positional file, the selected shell and the verbosity count gathered so
/// far. An unrecognized option, a second positional argument, a `-s`
/// without a following parsable shell name, or a missing positional
/// argument make the whole parse fail.
pub open spec fn spec_parse_args(
    args: Seq<Seq<char>>,
    file: Option<Seq<char>>,
    sh: Option<Shell>,
    verb: u8,
    dflt: Shell,
) -> Option<CliV>
    decreases args.len(),
{
    if args.len() == 0 {
        match file {
            Some(f) => Some(
                CliV {
                    toml_file: f,
                    shell: match sh {
                        Some(s) => s,
                        None => dflt,
                    },
                    verbosity: verb,
                },
            ),
            None => None,
        }
    } else {
        let a = args[0];
        if a == "-s"@ || a == "--shell"@ {
            if args.len() >= 2 {
                match shell_of_name(args[1]) {
                    Some(s) => spec_parse_args(args.skip(2), file, Some(s), verb, dflt),
                    None => None,
                }
            } else {
                None
            }
        } else if a == "-v"@ || a == "--verbose"@ {
            spec_parse_args(
                args.skip(1),
                file,
                sh,
                if verb == 255 {
                    255u8
                } else {
                    (verb + 1) as u8
                },
                dflt,
            )
        } else if a.len() > 0 && a[0] == '-' {
            None
        } else {
            match file {
                None => spec_parse_args(args.skip(1), Some(a), sh, verb, dflt),
                Some(_) => None,
            }
        }
    }
}

/// The command line a whole argument vector denotes: the first argument is
/// the program name and is ignored; the shell defaults to `dflt` when no
/// `-s` is given.
pub open spec fn spec_parse_cli(args: Seq<Seq<char>>, dflt: Shell) -> Option<CliV> {
    if args.len() == 0 {
        None
    } else {
        spec_parse_args(args.skip(1), None, None, 0u8, dflt)
    }
}

impl Cli {
    /// Parse a full argument vector, program name first. `default_shell`
    /// stands in when no `-s`/`--shell` option is given; the caller
    /// resolves it, typically from the `SHELL` environment signal.
    pub fn parse_from(args: &Vec<String>, default_shell: Shell) -> (r: Option<Cli>)
        ensures
            match r {
                Some(c) => spec_parse_cli(strs_of(args@), default_shell) == Some(c@),
                None => spec_parse_cli(strs_of(args@), default_shell) is None,
            },
    {
        let ghost argv = strs_of(args@);
        let n = args.len();
        if n == 0 {
            return None;
        }
        let mut i: usize = 1;
        let mut file: Option<String> = None;
        let mut sh: Option<Shell> = None;
        let mut verb: u8 = 0;
        while i < n
            invariant
                n == args@.len(),
                argv == strs_of(args@),
                1 <= i <= n,
                spec_parse_args(argv.skip(i as int), opt_str_view(file), sh, verb, default_shell)
                    == spec_parse_cli(argv, default_shell),
            decreases n - i,
        {
            proof {
                assert(argv.skip(i as int)[0] == args@[i as int]@);
                assert(argv.skip(i as int).skip(1) =~= argv.skip(i as int + 1));
            }
            let a = &args[i];
            if str_eq(a.as_str(), "-s") || str_eq(a.as_str(), "--shell") {
                if i + 1 < n {
                    proof {
                        assert(argv.skip(i as int)[1] == args@[i as int + 1]@);
                        assert(argv.skip(i as int).skip(2) =~= argv.skip(i as int + 2));
                    }
                    match Shell::from_str(args[i + 1].as_str()) {
                        Some(s) => {
                            sh = Some(s);
                            i += 2;
                        },
                        None => {
                            return None;
                        },
                    }
                } else {
                    return None;
                }
            } else if str_eq(a.as_str(), "-v") || str_eq(a.as_str(), "--verbose") {
                verb = if verb == 255 {
                    255
                } else {
                    verb + 1
                };
                i += 1;
            } else if a.unicode_len() > 0 && a.get_char(0) == '-' {
                return None;
            } else {
                match &file {
                    None => {
                        file = Some(a.clone());
                        i += 1;
                    },
                    Some(_) => {
                        return None;
                    },
                }
            }
        }
        proof {
            assert(argv.skip(n as int) =~= Seq::<Seq<char>>::empty());
        }
        match file {
            Some(f) => {
                let shell = match sh {
                    Some(s) => s,
                    None => default_shell,
                };
                Some(Cli { toml_file: f, shell, verbosity: verb })
            },
            None => None,
        }
    }
}

} // verus!
