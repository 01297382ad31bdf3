//! The command-line grammar.
//!
//! The intermediary is configured by a short, strict flag list: a help
//! request wins over everything, every flag takes exactly one value and may
//! be given at most once, and any argument outside the grammar rejects the
//! whole command line, naming the offending token.  Missing flags fall back
//! to the defaults.  Reading the process arguments and printing the help or
//! the rejection happen outside the library.

use vstd::prelude::*;
use crate::digits::{parse_u16, spec_parse_u16};
use crate::registry::opt_str_view;
use crate::text::str_eq;

verus! {

/// The default client-facing listen port.
pub const DEFAULT_PORT: u16 = 4444;

/// The default native-driver listen port.
pub const DEFAULT_NATIVE_PORT: u16 = 4445;

/// The intermediary's configuration: its own listen port, the port and
/// host the native driver is told to listen on, and an optional explicit
/// path to the native-driver executable in place of the path search.
#[derive(Debug, Clone)]
pub struct Args {
    pub port: u16,
    pub native_port: u16,
    pub native_host: String,
    pub native_driver: Option<String>,
}

/// The mathematical content of the configuration.
pub struct ArgsView {
    pub port: u16,
    pub native_port: u16,
    pub native_host: Seq<char>,
    pub native_driver: Option<Seq<char>>,
}

impl View for Args {
    type V = ArgsView;

    open spec fn view(&self) -> ArgsView {
        ArgsView {
            port: self.port,
            native_port: self.native_port,
            native_host: self.native_host@,
            native_driver: opt_str_view(self.native_driver),
        }
    }
}

/// How parsing the command line can end.
pub enum CliOutcome {
    /// Help was requested; nothing else matters.
    Help,
    /// The configuration to run with.
    Run(Args),
    /// The command line is rejected; the offending token is carried for
    /// the diagnostic.
    Error { offending: String },
}

/// The mathematical content of a parsing outcome.
pub enum CliOutcomeView {
    Help,
    Run(ArgsView),
    Error { offending: Seq<char> },
}

impl View for CliOutcome {
    type V = CliOutcomeView;

    open spec fn view(&self) -> CliOutcomeView {
        match self {
            CliOutcome::Help => CliOutcomeView::Help,
            CliOutcome::Run(args) => CliOutcomeView::Run(args@),
            CliOutcome::Error { offending } => CliOutcomeView::Error { offending: offending@ },
        }
    }
}

/// The options gathered so far while scanning the flag list.
struct CliAcc {
    port: Option<u16>,
    native_port: Option<u16>,
    native_host: Option<String>,
    native_driver: Option<String>,
}

/// The mathematical content of the gathered options.
pub struct CliAccView {
    pub port: Option<u16>,
    pub native_port: Option<u16>,
    pub native_host: Option<Seq<char>>,
    pub native_driver: Option<Seq<char>>,
}

impl View for CliAcc {
    type V = CliAccView;

    closed spec fn view(&self) -> CliAccView {
        CliAccView {
            port: self.port,
            native_port: self.native_port,
            native_host: opt_str_view(self.native_host),
            native_driver: opt_str_view(self.native_driver),
        }
    }
}

/// No options gathered yet.
pub open spec fn spec_acc_empty() -> CliAccView {
    CliAccView { port: None, native_port: None, native_host: None, native_driver: None }
}

/// The configuration the gathered options stand for, with every missing
/// option at its default.
pub open spec fn spec_defaults(acc: CliAccView) -> ArgsView {
    ArgsView {
        port: match acc.port {
            Some(p) => p,
            None => DEFAULT_PORT,
        },
        native_port: match acc.native_port {
            Some(p) => p,
            None => DEFAULT_NATIVE_PORT,
        },
        native_host: match acc.native_host {
            Some(h) => h,
            None => "127.0.0.1"@,
        },
        native_driver: acc.native_driver,
    }
}

/// The scan of the flag list from position `i` on: each known flag takes
/// the next argument as its value, given at most once and, for the ports,
/// parsed as a decimal port number; anything else rejects the command line.
pub open spec fn spec_scan(args: Seq<Seq<char>>, i: int, acc: CliAccView) -> CliOutcomeView
    decreases args.len() - i,
{
    if i < 0 || i >= args.len() {
        CliOutcomeView::Run(spec_defaults(acc))
    } else {
        let a = args[i];
        if a == "--port"@ {
            if acc.port is Some || i + 1 >= args.len() {
                CliOutcomeView::Error { offending: a }
            } else {
                match spec_parse_u16(args[i + 1]) {
                    None => CliOutcomeView::Error { offending: args[i + 1] },
                    Some(v) => spec_scan(
                        args,
                        i + 2,
                        CliAccView {
                            port: Some(v),
                            native_port: acc.native_port,
                            native_host: acc.native_host,
                            native_driver: acc.native_driver,
                        },
                    ),
                }
            }
        } else if a == "--native-port"@ {
            if acc.native_port is Some || i + 1 >= args.len() {
                CliOutcomeView::Error { offending: a }
            } else {
                match spec_parse_u16(args[i + 1]) {
                    None => CliOutcomeView::Error { offending: args[i + 1] },
                    Some(v) => spec_scan(
                        args,
                        i + 2,
                        CliAccView {
                            port: acc.port,
                            native_port: Some(v),
                            native_host: acc.native_host,
                            native_driver: acc.native_driver,
                        },
                    ),
                }
            }
        } else if a == "--native-host"@ {
            if acc.native_host is Some || i + 1 >= args.len() {
                CliOutcomeView::Error { offending: a }
            } else {
                spec_scan(
                    args,
                    i + 2,
                    CliAccView {
                        port: acc.port,
                        native_port: acc.native_port,
                        native_host: Some(args[i + 1]),
                        native_driver: acc.native_driver,
                    },
                )
            }
        } else if a == "--native-driver"@ {
            if acc.native_driver is Some || i + 1 >= args.len() {
                CliOutcomeView::Error { offending: a }
            } else {
                spec_scan(
                    args,
                    i + 2,
                    CliAccView {
                        port: acc.port,
                        native_port: acc.native_port,
                        native_host: acc.native_host,
                        native_driver: Some(args[i + 1]),
                    },
                )
            }
        } else {
            CliOutcomeView::Error { offending: a }
        }
    }
}

/// Whether the command line asks for help anywhere.
pub open spec fn spec_has_help(args: Seq<Seq<char>>) -> bool {
    exists|i: int| 0 <= i < args.len() && (args[i] == "-h"@ || args[i] == "--help"@)
}

/// What parsing the whole command line (without the program name) yields.
pub open spec fn spec_parse_cli(args: Seq<Seq<char>>) -> CliOutcomeView {
    if spec_has_help(args) {
        CliOutcomeView::Help
    } else {
        spec_scan(args, 0, spec_acc_empty())
    }
}

/// Parses the command line, program name excluded.
pub fn parse_cli(argv: &Vec<String>) -> (r: CliOutcome)
    ensures
        r@ == spec_parse_cli(argv.deep_view()),
{
    let ghost dv = argv.deep_view();
    let n = argv.len();
    let mut i: usize = 0;
    while i < n
        invariant
            n == argv@.len(),
            dv == argv.deep_view(),
            i <= n,
            forall|j: int| 0 <= j < i ==> dv[j] != "-h"@ && dv[j] != "--help"@,
        decreases n - i,
    {
        if str_eq(argv[i].as_str(), "-h") || str_eq(argv[i].as_str(), "--help") {
            proof {
                assert(dv[i as int] == argv@[i as int]@);
                assert(spec_has_help(dv));
            }
            return CliOutcome::Help;
        }
        i = i + 1;
    }
    proof {
        assert(!spec_has_help(dv));
    }
    let mut acc = CliAcc { port: None, native_port: None, native_host: None, native_driver: None };
    let mut i: usize = 0;
    while i < n
        invariant
            n == argv@.len(),
            dv == argv.deep_view(),
            i <= n,
            !spec_has_help(dv),
            spec_scan(dv, 0, spec_acc_empty()) == spec_scan(dv, i as int, acc@),
        decreases n - i,
    {
        if str_eq(argv[i].as_str(), "--port") {
            if acc.port.is_some() {
                return CliOutcome::Error { offending: argv[i].clone() };
            }
            if i + 1 >= n {
                return CliOutcome::Error { offending: argv[i].clone() };
            }
            match parse_u16(argv[i + 1].as_str()) {
                None => {
                    return CliOutcome::Error { offending: argv[i + 1].clone() };
                },
                Some(v) => {
                    acc.port = Some(v);
                    i = i + 2;
                },
            }
        } else if str_eq(argv[i].as_str(), "--native-port") {
            if acc.native_port.is_some() {
                return CliOutcome::Error { offending: argv[i].clone() };
            }
            if i + 1 >= n {
                return CliOutcome::Error { offending: argv[i].clone() };
            }
            match parse_u16(argv[i + 1].as_str()) {
                None => {
                    return CliOutcome::Error { offending: argv[i + 1].clone() };
                },
                Some(v) => {
                    acc.native_port = Some(v);
                    i = i + 2;
                },
            }
        } else if str_eq(argv[i].as_str(), "--native-host") {
            if acc.native_host.is_some() {
                return CliOutcome::Error { offending: argv[i].clone() };
            }
            if i + 1 >= n {
                return CliOutcome::Error { offending: argv[i].clone() };
            }
            acc.native_host = Some(argv[i + 1].clone());
            i = i + 2;
        } else if str_eq(argv[i].as_str(), "--native-driver") {
            if acc.native_driver.is_some() {
                return CliOutcome::Error { offending: argv[i].clone() };
            }
            if i + 1 >= n {
                return CliOutcome::Error { offending: argv[i].clone() };
            }
            acc.native_driver = Some(argv[i + 1].clone());
            i = i + 2;
        } else {
            return CliOutcome::Error { offending: argv[i].clone() };
        }
    }
    let port = match acc.port {
        Some(p) => p,
        None => DEFAULT_PORT,
    };
    let native_port = match acc.native_port {
        Some(p) => p,
        None => DEFAULT_NATIVE_PORT,
    };
    let native_host = match acc.native_host {
        Some(h) => h,
        None => "127.0.0.1".to_owned(),
    };
    CliOutcome::Run(Args { port, native_port, native_host, native_driver: acc.native_driver })
}

} // verus!
