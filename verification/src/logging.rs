//! Where the client starts to show the daemon's log.
use vstd::prelude::*;

verus! {

/// Where in the log file to start.
#[derive(Debug, PartialEq, Eq, Clone, Copy, Structural)]
pub enum LogStart {
    /// At the end: only what is logged from now on.
    End,
    /// At the beginning: the whole log.
    Start,
}

/// Decides where to start showing the log: nowhere when the client is not
/// verbose; at the end for log level 0 or none; at the beginning for level 1;
/// other levels are refused.
pub fn log_start(verbose: bool, log_level: Option<u64>) -> (r: Result<Option<LogStart>, String>)
    ensures
        !verbose ==> r == Ok::<Option<LogStart>, String>(None),
        verbose ==> match log_level {
            Option::None => r == Ok::<Option<LogStart>, String>(Some(LogStart::End)),
            Some(level) => if level == 0 {
                r == Ok::<Option<LogStart>, String>(Some(LogStart::End))
            } else if level == 1 {
                r == Ok::<Option<LogStart>, String>(Some(LogStart::Start))
            } else {
                r is Err && r->Err_0@ == "Unsupported Log-Level"@
            },
        },
{
    if !verbose {
        return Ok(None);
    }
    match log_level {
        Option::None => Ok(Some(LogStart::End)),
        Some(level) => {
            if level == 0 {
                Ok(Some(LogStart::End))
            } else if level == 1 {
                Ok(Some(LogStart::Start))
            } else {
                Err(String::from_str("Unsupported Log-Level"))
            }
        },
    }
}

} // verus!
