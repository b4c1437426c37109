//! Rendering a chain: the one-line summary of its head, and the full dump
//! with one indexed line per node, each with the place where it was made.

use vstd::prelude::*;
use crate::chain::{lemma_nodes_unfold, Error, ErrorCode, Failure};
use crate::text::{decimal, push_decimal};

verus! {

/// The line of the full dump for the node at position `index`:
/// `index: description, at file:line:column`.
pub open spec fn line_text(index: nat, node: Error) -> Seq<char> {
    decimal(index) + ": "@ + node.text() + ", at "@ + node.at().text()
}

/// The full dump of the nodes `nodes`: each node's line, in order, each
/// followed by a line break.
pub open spec fn dump_text(nodes: Seq<Error>) -> Seq<char>
    decreases nodes.len(),
{
    if nodes.len() == 0 {
        Seq::empty()
    } else {
        dump_text(nodes.drop_last()) + line_text((nodes.len() - 1) as nat, nodes.last()) + seq!['\n']
    }
}

impl ErrorCode {
    /// The code in decimal.
    pub fn render(&self) -> (r: String)
        ensures
            r@ == decimal(self.0 as nat),
    {
        let mut out = String::new();
        push_decimal(&mut out, self.0 as u64);
        assert(out@ =~= decimal(self.0 as nat));
        out
    }
}

impl Failure {
    /// The failure's own description.
    pub open spec fn text(self) -> Seq<char> {
        match self {
            Failure::Io(f) => f.message@,
            Failure::Message(m) => m@,
        }
    }

    /// The failure's own description.
    pub fn describe(&self) -> (r: String)
        ensures
            r@ == self.text(),
    {
        match self {
            Failure::Io(f) => f.message.clone(),
            Failure::Message(m) => m.clone(),
        }
    }
}

impl Error {
    /// The node's own description, whatever follows it.
    pub open spec fn text(self) -> Seq<char> {
        match self {
            Error::Code { code, .. } => "Error Code: "@ + decimal(code.0 as nat),
            Error::IO { source, .. } => source.message@,
            Error::Context { msg, .. } => msg@,
            Error::Any { source, .. } => source.text(),
        }
    }

    /// Appends the node's own description to `out`.
    fn push_text(&self, out: &mut String)
        ensures
            final(out)@ == old(out)@ + self.text(),
    {
        match self {
            Error::Code { code, .. } => {
                proof {
                    reveal_strlit("Error Code: ");
                }
                out.append("Error Code: ");
                push_decimal(out, code.0 as u64);
            },
            Error::IO { source, .. } => out.append(source.message.as_str()),
            Error::Context { msg, .. } => out.append(msg.as_str()),
            Error::Any { source, .. } => match source {
                Failure::Io(f) => out.append(f.message.as_str()),
                Failure::Message(m) => out.append(m.as_str()),
            },
        }
        assert(final(out)@ =~= old(out)@ + self.text());
    }

    /// The one-line summary: the head node's own description only.
    pub fn summary(&self) -> (r: String)
        ensures
            r@ == self.text(),
    {
        let mut out = String::new();
        self.push_text(&mut out);
        assert(out@ =~= self.text());
        out
    }

    /// The line of the full dump for this node at position `index`.
    pub fn line(&self, index: usize) -> (r: String)
        ensures
            r@ == line_text(index as nat, *self),
    {
        proof {
            reveal_strlit(": ");
            reveal_strlit(", at ");
        }
        let mut out = String::new();
        push_decimal(&mut out, index as u64);
        out.append(": ");
        self.push_text(&mut out);
        out.append(", at ");
        self.location().push_to(&mut out);
        assert(out@ =~= line_text(index as nat, *self));
        out
    }

    /// The full dump, one line per node of the chain, head first.
    pub fn dump_lines(&self) -> (r: Vec<String>)
        ensures
            r@.len() == self.nodes().len(),
            forall|i: int| 0 <= i < r@.len() ==> #[trigger] r@[i]@ == line_text(i as nat, self.nodes()[i]),
    {
        let mut lines: Vec<String> = Vec::new();
        let mut cur: &Error = self;
        loop
            invariant_except_break
                lines@.len() < self.nodes().len(),
                cur.nodes() =~= self.nodes().subrange(lines@.len() as int, self.nodes().len() as int),
            invariant
                forall|i: int| 0 <= i < lines@.len() ==> #[trigger] lines@[i]@ == line_text(i as nat, self.nodes()[i]),
            ensures
                lines@.len() == self.nodes().len(),
                forall|i: int| 0 <= i < lines@.len() ==> #[trigger] lines@[i]@ == line_text(i as nat, self.nodes()[i]),
            decreases cur.nodes().len(),
        {
            let index = lines.len();
            let text = cur.line(index);
            proof {
                lemma_nodes_unfold(*cur);
            }
            assert(line_text(index as nat, *cur) == line_text(index as nat, self.nodes()[index as int]));
            lines.push(text);
            match cur.next_node() {
                None => {
                    break;
                },
                Some(next) => {
                    assert(next.nodes() =~= cur.nodes().subrange(1, cur.nodes().len() as int));
                    assert(next.nodes() =~= self.nodes().subrange(
                        lines@.len() as int,
                        self.nodes().len() as int,
                    ));
                    cur = next;
                },
            }
        }
        lines
    }

    /// The full dump as one text: each line of the dump followed by a line break.
    pub fn dump(&self) -> (r: String)
        ensures
            r@ == dump_text(self.nodes()),
    {
        let lines = self.dump_lines();
        let ghost nodes = self.nodes();
        let mut out = String::new();
        let mut i: usize = 0;
        while i < lines.len()
            invariant
                i <= lines@.len(),
                lines@.len() == nodes.len(),
                forall|j: int| 0 <= j < lines@.len() ==> #[trigger] lines@[j]@ == line_text(j as nat, nodes[j]),
                out@ == dump_text(nodes.take(i as int)),
            decreases lines@.len() - i,
        {
            proof {
                reveal_strlit("\n");
            }
            let ghost before = out@;
            out.append(lines[i].as_str());
            out.append("\n");
            assert(out@ =~= before + lines@[i as int]@ + seq!['\n']);
            assert(nodes.take(i + 1).drop_last() =~= nodes.take(i as int));
            assert(nodes.take(i + 1).last() == nodes[i as int]);
            assert(lines@[i as int]@ == line_text(i as nat, nodes[i as int]));
            assert(dump_text(nodes.take(i + 1)) == dump_text(nodes.take(i as int)) + line_text(
                i as nat,
                nodes[i as int],
            ) + seq!['\n']);
            assert(out@ =~= dump_text(nodes.take(i + 1)));
            i = i + 1;
        }
        assert(nodes.take(i as int) =~= nodes);
        out
    }
}

} // verus!
