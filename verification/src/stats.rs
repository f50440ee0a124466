//! What a finished search reports: its figures and the lines that carry
//! them.

use vstd::prelude::*;
use crate::text::decimal;
use crate::text::push_decimal;

verus! {

/// A summary is reported from verbosity one upwards.
pub open spec fn summary_wanted(verbosity: u64) -> bool {
    verbosity >= 1
}

/// Live progress is reported from verbosity two upwards.
pub open spec fn progress_wanted(verbosity: u64) -> bool {
    verbosity >= 2
}

/// Whether a summary is reported at this verbosity.
pub fn reports_summary(verbosity: u64) -> (wanted: bool)
    ensures
        wanted == summary_wanted(verbosity),
{
    verbosity >= 1
}

/// Whether live progress is reported at this verbosity.
pub fn reports_progress(verbosity: u64) -> (wanted: bool)
    ensures
        wanted == progress_wanted(verbosity),
{
    verbosity >= 2
}

/// The lines that announce a search.
pub open spec fn opening_text(search: Seq<char>, cpus: nat, verbosity: u64) -> Seq<Seq<char>> {
    if progress_wanted(verbosity) {
        seq![
            "searching for address containing: "@ + search + "."@,
            "using "@ + decimal(cpus) + " logical processors."@,
            "using level "@ + decimal(verbosity as nat) + " verbosity."@,
            "\n"@,
            "searching..."@,
        ]
    } else {
        Seq::empty()
    }
}

/// The lines that announce a search: five when live progress is wanted,
/// none otherwise.
pub fn opening_lines(search: &str, cpus: usize, verbosity: u64) -> (lines: Vec<String>)
    ensures
        lines@.len() == opening_text(search@, cpus as nat, verbosity).len(),
        forall|i: int|
            0 <= i < lines@.len() ==> (#[trigger] lines@[i])@ == opening_text(
                search@,
                cpus as nat,
                verbosity,
            )[i],
{
    let mut lines: Vec<String> = Vec::new();
    if reports_progress(verbosity) {
        let mut pattern_line = String::new();
        pattern_line.push_str("searching for address containing: ");
        pattern_line.push_str(search);
        pattern_line.push_str(".");
        assert(pattern_line@ =~= "searching for address containing: "@ + search@ + "."@);
        let mut cpus_line = String::new();
        cpus_line.push_str("using ");
        push_decimal(&mut cpus_line, cpus as u64);
        cpus_line.push_str(" logical processors.");
        assert(cpus_line@ =~= "using "@ + decimal(cpus as nat) + " logical processors."@);
        let mut level_line = String::new();
        level_line.push_str("using level ");
        push_decimal(&mut level_line, verbosity);
        level_line.push_str(" verbosity.");
        assert(level_line@ =~= "using level "@ + decimal(verbosity as nat) + " verbosity."@);
        let mut blank = String::new();
        blank.push_str("\n");
        assert(blank@ =~= "\n"@);
        let mut searching = String::new();
        searching.push_str("searching...");
        assert(searching@ =~= "searching..."@);
        lines.push(pattern_line);
        lines.push(cpus_line);
        lines.push(level_line);
        lines.push(blank);
        lines.push(searching);
    }
    lines
}

/// The figures of a finished search.
#[derive(Debug, Clone, Copy, PartialEq, Eq)]
pub struct SearchStats {
    /// The attempts that all workers counted together.
    pub tries: u64,
    /// The whole seconds that the search took.
    pub seconds: u64,
}

impl SearchStats {
    /// The attempts per second, where a second has passed.
    pub open spec fn rate(self) -> Option<u64> {
        if self.seconds > 0 {
            Some(self.tries / self.seconds)
        } else {
            None
        }
    }

    /// `tries: ` and the number of attempts.
    pub open spec fn tries_text(self) -> Seq<char> {
        "tries: "@ + decimal(self.tries as nat)
    }

    /// The sentence that gives the duration.
    pub open spec fn duration_text(self) -> Seq<char> {
        "found matching account in "@ + decimal(self.seconds as nat) + " seconds."@
    }

    /// `tries per second: ` and the rate, where there is one.
    pub open spec fn rate_text(self) -> Option<Seq<char>> {
        match self.rate() {
            Some(rate) => Some("tries per second: "@ + decimal(rate as nat)),
            None => None,
        }
    }

    /// The attempts per second, rounded down; none for a search that took
    /// less than a second.
    pub fn tries_per_second(&self) -> (rate: Option<u64>)
        ensures
            rate == self.rate(),
    {
        if self.seconds > 0 {
            Some(self.tries / self.seconds)
        } else {
            None
        }
    }

    /// The line that gives the number of attempts.
    pub fn tries_line(&self) -> (line: String)
        ensures
            line@ == self.tries_text(),
    {
        let mut line = String::new();
        line.push_str("tries: ");
        push_decimal(&mut line, self.tries);
        assert(line@ =~= self.tries_text());
        line
    }

    /// The line that gives the duration.
    pub fn duration_line(&self) -> (line: String)
        ensures
            line@ == self.duration_text(),
    {
        let mut line = String::new();
        line.push_str("found matching account in ");
        push_decimal(&mut line, self.seconds);
        line.push_str(" seconds.");
        assert(line@ =~= self.duration_text());
        line
    }

    /// The line that gives the rate; none for a search that took less than
    /// a second.
    pub fn rate_line(&self) -> (line: Option<String>)
        ensures
            line is Some <==> self.rate_text() is Some,
            line matches Some(text) ==> Some(text@) == self.rate_text(),
    {
        match self.tries_per_second() {
            Some(rate) => {
                let mut line = String::new();
                line.push_str("tries per second: ");
                push_decimal(&mut line, rate);
                assert(line@ =~= "tries per second: "@ + decimal(rate as nat));
                Some(line)
            },
            None => None,
        }
    }
}

} // verus!
