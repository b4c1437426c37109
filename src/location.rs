//! Where a link of an error chain was made.

use vstd::prelude::*;
use crate::text::{decimal, push_decimal};

verus! {

/// A source position: file, line and column.
#[derive(Clone, Copy, Debug)]
pub struct Location {
    pub file: &'static str,
    pub line: u32,
    pub column: u32,
}

impl Location {
    /// The position as text, `file:line:column`.
    pub open spec fn text(self) -> Seq<char> {
        self.file@ + seq![':'] + decimal(self.line as nat) + seq![':'] + decimal(self.column as nat)
    }

    /// The stand-in used where no position could be captured.
    pub open spec fn unknown_spec() -> Location {
        Location { file: "<unknown>", line: 0, column: 0 }
    }

    /// Whether this is the stand-in used where no position could be captured.
    pub open spec fn is_unknown(self) -> bool {
        &&& self.file@ == seq!['<', 'u', 'n', 'k', 'n', 'o', 'w', 'n', '>']
        &&& self.line == 0
        &&& self.column == 0
    }

    pub fn new(file: &'static str, line: u32, column: u32) -> (r: Location)
        ensures
            r.file == file,
            r.line == line,
            r.column == column,
    {
        Location { file, line, column }
    }

    /// The position used where none could be captured, `<unknown>:0:0`.
    pub fn unknown() -> (r: Location)
        ensures
            r == Location::unknown_spec(),
            r.is_unknown(),
    {
        proof {
            reveal_strlit("<unknown>");
        }
        let r = Location { file: "<unknown>", line: 0, column: 0 };
        assert(r.file@ =~= seq!['<', 'u', 'n', 'k', 'n', 'o', 'w', 'n', '>']);
        r
    }

    /// Appends `file:line:column` to `out`.
    pub fn push_to(&self, out: &mut String)
        ensures
            final(out)@ == old(out)@ + self.text(),
    {
        proof {
            reveal_strlit(":");
        }
        out.append(self.file);
        out.append(":");
        push_decimal(out, self.line as u64);
        out.append(":");
        push_decimal(out, self.column as u64);
        assert(final(out)@ =~= old(out)@ + self.text());
    }

    /// The position as text, `file:line:column`.
    pub fn render(&self) -> (r: String)
        ensures
            r@ == self.text(),
    {
        let mut out = String::new();
        self.push_to(&mut out);
        assert(out@ =~= self.text());
        out
    }
}

impl Default for Location {
    fn default() -> (r: Location)
        ensures
            r == Location::unknown_spec(),
            r.is_unknown(),
    {
        Location::unknown()
    }
}

} // verus!
