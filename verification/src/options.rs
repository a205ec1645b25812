//! The run configuration and the command-line argument parser that
//! produces it.
use vstd::prelude::*;
use vstd::string::StringExecFns;
use crate::colour::{Colour, parse_colour, spec_colour_error_message, spec_parse_colour};
use crate::error::Error;
use crate::timefmt::TimeFormat;

verus! {

/// The immutable configuration of one run.
#[derive(Clone, Copy)]
pub struct Options {
    pub twenty_four_hour: bool,
    pub show_seconds: bool,
    pub colour: Option<Colour>,
}

/// The configuration before any argument is read.
pub open spec fn spec_default_options() -> Options {
    Options { twenty_four_hour: false, show_seconds: false, colour: None }
}

/// The layout the two configuration booleans select.
pub open spec fn spec_format_choice(o: Options) -> TimeFormat {
    match (o.twenty_four_hour, o.show_seconds) {
        (true, true) => TimeFormat::TwentyFourHms,
        (true, false) => TimeFormat::TwentyFourHm,
        (false, true) => TimeFormat::TwelveHms,
        (false, false) => TimeFormat::TwelveHm,
    }
}

/// How long one wait for an event may last, in milliseconds: half a
/// second when seconds are shown, else a full second.
pub open spec fn spec_poll_interval_millis(o: Options) -> u64 {
    if o.show_seconds {
        500
    } else {
        1000
    }
}

impl Default for Options {
    /// 12-hour time, no seconds, default colour.
    fn default() -> (o: Options)
        ensures
            o == spec_default_options(),
    {
        Options { twenty_four_hour: false, show_seconds: false, colour: None }
    }
}

impl Options {
    /// The time layout this configuration selects.
    pub fn format(&self) -> (f: TimeFormat)
        ensures
            f == spec_format_choice(*self),
    {
        match (self.twenty_four_hour, self.show_seconds) {
            (true, true) => TimeFormat::TwentyFourHms,
            (true, false) => TimeFormat::TwentyFourHm,
            (false, true) => TimeFormat::TwelveHms,
            (false, false) => TimeFormat::TwelveHm,
        }
    }

    /// The poll interval in milliseconds.
    pub fn poll_interval_millis(&self) -> (ms: u64)
        ensures
            ms == spec_poll_interval_millis(*self),
    {
        if self.show_seconds {
            500
        } else {
            1000
        }
    }
}

/// What a whole argument list means.
pub enum ArgsOutcome {
    /// Run the clock with this configuration.
    Run(Options),
    /// Help was requested; the run ends successfully without starting.
    Help,
    /// A usage error with its message.
    Usage(Seq<char>),
    /// A malformed colour value with its message.
    Config(Seq<char>),
}

/// The meaning of the arguments still to be read, given the
/// configuration built so far. Arguments are read left to right; a
/// colour flag consumes the argument after it.
pub open spec fn spec_parse_args_from(args: Seq<Seq<char>>, acc: Options) -> ArgsOutcome
    decreases args.len(),
{
    if args.len() == 0 {
        ArgsOutcome::Run(acc)
    } else {
        let a = args[0];
        if a == "-h"@ || a == "--help"@ {
            ArgsOutcome::Help
        } else if a == "-24"@ {
            spec_parse_args_from(
                args.skip(1),
                Options {
                    twenty_four_hour: true,
                    show_seconds: acc.show_seconds,
                    colour: acc.colour,
                },
            )
        } else if a == "--seconds"@ {
            spec_parse_args_from(
                args.skip(1),
                Options {
                    twenty_four_hour: acc.twenty_four_hour,
                    show_seconds: true,
                    colour: acc.colour,
                },
            )
        } else if a == "-c"@ || a == "--color"@ || a == "--colour"@ {
            if args.len() == 1 {
                ArgsOutcome::Usage("--colour requires an argument"@)
            } else {
                match spec_parse_colour(args[1]) {
                    Some(c) => spec_parse_args_from(
                        args.skip(2),
                        Options {
                            twenty_four_hour: acc.twenty_four_hour,
                            show_seconds: acc.show_seconds,
                            colour: Some(c),
                        },
                    ),
                    None => ArgsOutcome::Config(spec_colour_error_message(args[1])),
                }
            }
        } else {
            ArgsOutcome::Usage("unknown option: '"@ + a + "'"@)
        }
    }
}

/// What an argument list means, starting from the defaults.
pub open spec fn spec_parse_args(args: Seq<Seq<char>>) -> ArgsOutcome {
    spec_parse_args_from(args, spec_default_options())
}

/// Parse the command-line arguments (the program name already
/// stripped) into a configuration, or the error that ends the run.
pub fn parse_args(args: &Vec<String>) -> (r: Result<Options, Error>)
    ensures
        match spec_parse_args(args.deep_view()) {
            ArgsOutcome::Run(o) => r == Ok::<Options, Error>(o),
            ArgsOutcome::Help => r matches Err(e) && e is Help,
            ArgsOutcome::Usage(m) => r matches Err(e) && (e matches Error::Usage(s) && s@ == m),
            ArgsOutcome::Config(m) => r matches Err(e) && (e matches Error::Config(s) && s@ == m),
        },
{
    let ghost dv = args.deep_view();
    let mut options = Options::default();
    let n = args.len();
    let mut i: usize = 0;
    proof {
        assert(dv.skip(0) =~= dv);
    }
    while i < n
        invariant
            n == args@.len(),
            dv == args.deep_view(),
            dv.len() == n,
            i <= n,
            spec_parse_args(dv) == spec_parse_args_from(dv.skip(i as int), options),
        decreases n - i,
    {
        proof {
            assert(dv[i as int] == args@[i as int]@);
            assert(dv.skip(i as int)[0] == dv[i as int]);
        }
        let a = &args[i];
        if crate::text::str_eq(a.as_str(), "-h") || crate::text::str_eq(a.as_str(), "--help") {
            return Err(Error::Help);
        } else if crate::text::str_eq(a.as_str(), "-24") {
            options =
            Options {
                twenty_four_hour: true,
                show_seconds: options.show_seconds,
                colour: options.colour,
            };
            i = i + 1;
            proof {
                assert(dv.skip(i - 1).skip(1) =~= dv.skip(i as int));
            }
        } else if crate::text::str_eq(a.as_str(), "--seconds") {
            options =
            Options {
                twenty_four_hour: options.twenty_four_hour,
                show_seconds: true,
                colour: options.colour,
            };
            i = i + 1;
            proof {
                assert(dv.skip(i - 1).skip(1) =~= dv.skip(i as int));
            }
        } else if crate::text::str_eq(a.as_str(), "-c") || crate::text::str_eq(a.as_str(), "--color")
            || crate::text::str_eq(a.as_str(), "--colour") {
            if i + 1 >= n {
                return Err(Error::Usage(String::from_str("--colour requires an argument")));
            }
            proof {
                assert(dv[i + 1] == args@[i + 1]@);
                assert(dv.skip(i as int)[1] == dv[i + 1]);
            }
            match parse_colour(args[i + 1].as_str()) {
                Ok(c) => {
                    options =
                    Options {
                        twenty_four_hour: options.twenty_four_hour,
                        show_seconds: options.show_seconds,
                        colour: Some(c),
                    };
                    i = i + 2;
                    proof {
                        assert(dv.skip(i - 2).skip(2) =~= dv.skip(i as int));
                    }
                },
                Err(e) => {
                    return Err(e);
                },
            }
        } else {
            return Err(
                Error::Usage(
                    String::from_str("unknown option: '").concat(a.as_str()).concat("'"),
                ),
            );
        }
    }
    proof {
        assert(dv.skip(n as int) =~= Seq::<Seq<char>>::empty());
    }
    Ok(options)
}

} // verus!
