use vstd::prelude::*;
use vstd::string::StringExecFns;

verus! {

/// Severity of a log record, from least to most severe.
#[derive(Debug, Clone, Copy, PartialEq, Eq, Structural)]
pub enum Level {
    Verbose,
    Debug,
    Info,
    Warn,
    Error,
}

/// The rank of a level; records rank at least the sink's level to be kept.
pub open spec fn level_rank(l: Level) -> nat {
    match l {
        Level::Verbose => 0,
        Level::Debug => 1,
        Level::Info => 2,
        Level::Warn => 3,
        Level::Error => 4,
    }
}

/// The name a level is printed under.
pub open spec fn level_name(l: Level) -> Seq<char> {
    match l {
        Level::Verbose => "VERBOSE"@,
        Level::Debug => "DEBUG"@,
        Level::Info => "INFO"@,
        Level::Warn => "WARN"@,
        Level::Error => "ERROR"@,
    }
}

impl Level {
    /// The level configured as a number 1 to 5; anything else means `Error`.
    pub fn from(level: i32) -> (r: Level)
        ensures
            1 <= level <= 5 ==> level_rank(r) == level - 1,
            !(1 <= level <= 5) ==> r == Level::Error,
    {
        match level {
            1 => Level::Verbose,
            2 => Level::Debug,
            3 => Level::Info,
            4 => Level::Warn,
            _ => Level::Error,
        }
    }

    pub fn rank(&self) -> (r: u8)
        ensures
            r == level_rank(*self),
    {
        match self {
            Level::Verbose => 0,
            Level::Debug => 1,
            Level::Info => 2,
            Level::Warn => 3,
            Level::Error => 4,
        }
    }

    pub fn name(&self) -> (r: &'static str)
        ensures
            r@ == level_name(*self),
    {
        match self {
            Level::Verbose => "VERBOSE",
            Level::Debug => "DEBUG",
            Level::Info => "INFO",
            Level::Warn => "WARN",
            Level::Error => "ERROR",
        }
    }
}

/// The record a sink set to `threshold` writes for `message` at `level`:
/// `[EXODUS] [LEVEL] - message`, or nothing for a level below the threshold.
pub fn log(threshold: Level, level: Level, message: &str) -> (r: Option<String>)
    ensures
        level_rank(level) < level_rank(threshold) ==> r is None,
        level_rank(level) >= level_rank(threshold) ==> (r matches Some(s) && s@ == "[EXODUS] ["@
            + level_name(level) + "] - "@ + message@),
{
    if level.rank() < threshold.rank() {
        return None;
    }
    let mut line = String::from_str("[EXODUS] [");
    line.append(level.name());
    line.append("] - ");
    line.append(message);
    Some(line)
}

} // verus!
