//! The five log severities and their rendered level tokens.

use vstd::prelude::*;

verus! {

/// A log severity, one of five values totally ordered by increasing
/// importance: `Trace < Debug < Info < Warn < Error`.
#[derive(Clone, Copy, PartialEq, Eq, Structural, Debug, Hash)]
pub enum Severity {
    Trace,
    Debug,
    Info,
    Warn,
    Error,
}

impl Severity {
    /// Numeric rank of a severity; a larger rank means more important.
    pub open spec fn rank(self) -> nat {
        match self {
            Severity::Trace => 0,
            Severity::Debug => 1,
            Severity::Info => 2,
            Severity::Warn => 3,
            Severity::Error => 4,
        }
    }

    /// The bracketed level token that opens every rendered line.
    pub open spec fn spec_label(self) -> Seq<char> {
        match self {
            Severity::Trace => seq!['[', 'T', 'R', 'A', 'C', 'E', ']'],
            Severity::Debug => seq!['[', 'D', 'E', 'B', 'U', 'G', ']'],
            Severity::Info => seq!['[', 'I', 'N', 'F', 'O', ']'],
            Severity::Warn => seq!['[', 'W', 'A', 'R', 'N', ']'],
            Severity::Error => seq!['[', 'E', 'R', 'R', 'O', 'R', ']'],
        }
    }

    /// The bracketed level token, e.g. `[INFO]`.
    pub fn label(self) -> (r: &'static str)
        ensures
            r@ == self.spec_label(),
    {
        proof {
            reveal_strlit("[TRACE]");
            reveal_strlit("[DEBUG]");
            reveal_strlit("[INFO]");
            reveal_strlit("[WARN]");
            reveal_strlit("[ERROR]");
            assert("[TRACE]"@ =~= Severity::Trace.spec_label());
            assert("[DEBUG]"@ =~= Severity::Debug.spec_label());
            assert("[INFO]"@ =~= Severity::Info.spec_label());
            assert("[WARN]"@ =~= Severity::Warn.spec_label());
            assert("[ERROR]"@ =~= Severity::Error.spec_label());
        }
        match self {
            Severity::Trace => "[TRACE]",
            Severity::Debug => "[DEBUG]",
            Severity::Info => "[INFO]",
            Severity::Warn => "[WARN]",
            Severity::Error => "[ERROR]",
        }
    }

    /// Whether an event of severity `self` passes a minimum-severity
    /// filter set to `floor`.
    pub fn passes(self, floor: Severity) -> (r: bool)
        ensures
            r == (self.rank() >= floor.rank()),
    {
        self.rank_u8() >= floor.rank_u8()
    }

    /// Executable rank, used to compare severities.
    pub fn rank_u8(self) -> (r: u8)
        ensures
            r as nat == self.rank(),
    {
        match self {
            Severity::Trace => 0,
            Severity::Debug => 1,
            Severity::Info => 2,
            Severity::Warn => 3,
            Severity::Error => 4,
        }
    }
}

/// Every level token consists of printable characters: no escape character
/// and no line-break characters occur in it.
pub proof fn lemma_label_chars(s: Severity)
    ensures
        forall|i: int|
            0 <= i < s.spec_label().len() ==> #[trigger] s.spec_label()[i] != '\u{1b}'
                && s.spec_label()[i] != '\r' && s.spec_label()[i] != '\n',
{
}

} // verus!
