//! The journal: the lines that a server leaves for its operator. The server
//! writes them here; whoever runs it prints them.

use vstd::prelude::*;

verus! {

/// The lines of a journal, as text.
pub open spec fn lines(journal: Seq<String>) -> Seq<Seq<char>> {
    journal.map_values(|line: String| line@)
}

/// Logs a message: adds it to the journal as its last line.
pub fn log(journal: &mut Vec<String>, s: &str)
    ensures
        lines(final(journal)@) == lines(old(journal)@).push(s@),
{
    journal.push(s.to_owned());
}

} // verus!
