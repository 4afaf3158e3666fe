//! Severity tags for the log operation.

use vstd::prelude::*;
use vstd::string::StringExecFns;

verus! {

/// Severity/category tag attached to a log event.
///
/// On the wire a level appears as a JSON string holding its lowercase
/// name, as [`LogLevel::name`] states.
#[derive(Debug, Clone, Copy, PartialEq, Eq, Structural)]
pub enum LogLevel {
    Loot,
    Info,
    Warn,
    Error,
}

impl LogLevel {
    /// The lowercase wire name of this level.
    pub open spec fn spec_name(self) -> Seq<char> {
        match self {
            LogLevel::Loot => "loot"@,
            LogLevel::Info => "info"@,
            LogLevel::Warn => "warn"@,
            LogLevel::Error => "error"@,
        }
    }

    /// Returns the lowercase name of the variant: every level serializes
    /// to exactly that string.
    pub fn name(&self) -> (r: String)
        ensures
            r@ == self.spec_name(),
    {
        match self {
            LogLevel::Loot => String::from_str("loot"),
            LogLevel::Info => String::from_str("info"),
            LogLevel::Warn => String::from_str("warn"),
            LogLevel::Error => String::from_str("error"),
        }
    }
}

} // verus!
