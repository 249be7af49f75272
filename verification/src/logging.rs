//! Log-verbosity selection from the command line's repeatable flags.

use vstd::prelude::*;

verus! {

/// The five verbosity levels of the tool's logging, from quietest to
/// loudest.
#[derive(Clone, Copy, PartialEq, Eq, Structural, Debug)]
pub enum LogLevel {
    ErrorOnly,
    Warn,
    Info,
    Debug,
    Trace,
}

/// Determine the log level from the `--verbose`/`-v` and `--quiet`/`-q`
/// flag counts. The default is `Info`; each `-v` moves one level louder
/// and each `-q` one level quieter, saturating at the ends.
pub fn log_level(verbose: u8, quiet: u8) -> (level: LogLevel)
    ensures
        verbose - quiet <= -2 ==> level == LogLevel::ErrorOnly,
        verbose - quiet == -1 ==> level == LogLevel::Warn,
        verbose - quiet == 0 ==> level == LogLevel::Info,
        verbose - quiet == 1 ==> level == LogLevel::Debug,
        verbose - quiet >= 2 ==> level == LogLevel::Trace,
{
    let shift: i16 = verbose as i16 - quiet as i16;
    if shift <= -2 {
        LogLevel::ErrorOnly
    } else if shift == -1 {
        LogLevel::Warn
    } else if shift == 0 {
        LogLevel::Info
    } else if shift == 1 {
        LogLevel::Debug
    } else {
        LogLevel::Trace
    }
}

} // verus!
