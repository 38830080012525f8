//! Settings chosen on the command line.
use vstd::prelude::*;

verus! {

/// The environment that error reports are filed under.
#[derive(Debug, Clone, Copy, PartialEq, Eq, Structural)]
pub enum SentryEnvironment {
    Development,
    Production,
}

impl Default for SentryEnvironment {
    fn default() -> (r: SentryEnvironment)
        ensures
            r == SentryEnvironment::Development,
    {
        SentryEnvironment::Development
    }
}

impl SentryEnvironment {
    /// The name under which the environment is reported.
    pub open spec fn spec_name(self) -> Seq<char> {
        match self {
            SentryEnvironment::Development => "development"@,
            SentryEnvironment::Production => "production"@,
        }
    }

    /// The name under which the environment is reported.
    pub fn name(&self) -> (r: &'static str)
        ensures
            r@ == self.spec_name(),
    {
        match self {
            SentryEnvironment::Development => "development",
            SentryEnvironment::Production => "production",
        }
    }
}

} // verus!
