use vstd::prelude::*;

verus! {

#[verifier::external_type_specification]
pub struct ExLevelFilter(log::LevelFilter);

/// Relies on `log::set_max_level`, which stores the global maximum level and
/// returns nothing.
pub assume_specification[ log::set_max_level ](level: log::LevelFilter);

/// The sink of log records: each record becomes one line on the error stream.
#[derive(Clone, Copy, Debug)]
pub struct IVLogger;

/// The line written for a record: `<target>:<level>: <message>`.
pub open spec fn log_line(target: Seq<char>, level: Seq<char>, message: Seq<char>) -> Seq<char> {
    target + ":"@ + level + ": "@ + message
}

/// The most detailed level kept: debug when verbose, warnings otherwise.
pub open spec fn level_for(verbose: bool) -> log::LevelFilter {
    if verbose {
        log::LevelFilter::Debug
    } else {
        log::LevelFilter::Warn
    }
}

impl IVLogger {
    /// Every record that passes the global level is written.
    pub fn enabled(&self) -> (r: bool)
        ensures
            r,
    {
        true
    }

    /// The line written for a record of the given target, level and message.
    pub fn line(&self, target: &str, level: &str, message: &str) -> (r: String)
        ensures
            r@ == log_line(target@, level@, message@),
    {
        let mut s = String::from_str(target);
        s.append(":");
        s.append(level);
        s.append(": ");
        s.append(message);
        s
    }
}

/// Sets the global level, debug when verbose and warnings otherwise, and
/// returns it. Installing the sink is left to the program that owns it.
pub fn init_logger(verbose: bool) -> (r: log::LevelFilter)
    ensures
        r == level_for(verbose),
{
    let level = if verbose {
        log::LevelFilter::Debug
    } else {
        log::LevelFilter::Warn
    };
    log::set_max_level(level);
    level
}

} // verus!
