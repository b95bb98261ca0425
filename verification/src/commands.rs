//! Decisions behind the subcommands: what to send, in which order, and what to
//! report back.
pub mod auth;
pub mod dns;
pub mod domains;
pub mod hosts;
pub mod proxy;
pub mod sites;

use vstd::prelude::*;

verus! {

/// How a report line is shown.
#[derive(Clone, Copy, Debug, PartialEq, Eq)]
pub enum Level {
    Success,
    Info,
    Warn,
}

/// One line of a command's report.
#[derive(Clone, Debug)]
pub struct Notice {
    pub level: Level,
    pub text: String,
}

/// The lines of a report, as level and text.
pub open spec fn notices_view(n: Seq<Notice>) -> Seq<(Level, Seq<char>)> {
    n.map_values(|x: Notice| (x.level, x.text@))
}

} // verus!
