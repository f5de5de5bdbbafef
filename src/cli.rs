//! The command-line argument matches that select a custom install layout.

use vstd::prelude::*;

use structopt::clap::ArgMatches;

verus! {

/// clap's parsed command-line arguments (re-exported by structopt), carried
/// through opaquely.
#[verifier::external_type_specification]
#[verifier::external_body]
pub struct ExArgMatches<'a>(ArgMatches<'a>);

/// Relies on clap's `ArgMatches::is_present`: whether the argument (or
/// subcommand) called `name` was given on the command line. It never panics;
/// nothing is stated of the answer, which depends on the command line.
#[verifier::external_body]
pub(crate) fn arg_given(args: &ArgMatches, name: &str) -> (r: bool) {
    args.is_present(name)
}

} // verus!
