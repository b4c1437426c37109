//! The error chain: a node of one of a closed set of kinds, each with the
//! place where it was made and an owned link to the node that follows it.

use vstd::prelude::*;
use crate::location::Location;

verus! {

/// A numeric failure code of the application.
#[derive(Clone, Copy, Debug)]
pub struct ErrorCode(pub u32);

/// A failed input/output operation, with the host's description of it.
#[derive(Debug)]
pub struct IoFailure {
    pub message: String,
}

/// A failure that no domain kind of node recognises, kept with its concrete
/// kind so that callers can tell the kinds apart later.
#[derive(Debug)]
pub enum Failure {
    /// An input/output failure.
    Io(IoFailure),
    /// A failure that is nothing but its description.
    Message(String),
}

/// One node of an error chain. Every kind carries `location`, where the node
/// was made, and `chain`, the node that continues the chain after it.
#[derive(Debug)]
#[allow(inconsistent_fields)]
pub enum Error {
    /// A failure of the application, identified by its code.
    Code { code: ErrorCode, location: Location, chain: Option<Box<Error>> },
    /// An input/output failure, wrapped as the application's own kind.
    IO { source: IoFailure, location: Location, chain: Option<Box<Error>> },
    /// A note added while the failure travelled up through the callers.
    Context { msg: String, location: Location, chain: Option<Box<Error>> },
    /// A failure of any other kind.
    Any { source: Failure, location: Location, chain: Option<Box<Error>> },
}

fn deref_link(chain: &Option<Box<Error>>) -> (r: Option<&Error>)
    ensures
        r is Some <==> chain is Some,
        r is Some ==> *r.unwrap() == *chain.unwrap(),
{
    match chain {
        Some(next) => Some(&**next),
        None => None,
    }
}

impl Error {
    /// The node that follows this one.
    pub open spec fn link(self) -> Option<Box<Error>> {
        match self {
            Error::Code { chain, .. } => chain,
            Error::IO { chain, .. } => chain,
            Error::Context { chain, .. } => chain,
            Error::Any { chain, .. } => chain,
        }
    }

    /// Where this node was made.
    pub open spec fn at(self) -> Location {
        match self {
            Error::Code { location, .. } => location,
            Error::IO { location, .. } => location,
            Error::Context { location, .. } => location,
            Error::Any { location, .. } => location,
        }
    }

    /// This node with its link replaced by `link`.
    pub open spec fn with_link(self, link: Option<Box<Error>>) -> Error {
        match self {
            Error::Code { code, location, .. } => Error::Code { code, location, chain: link },
            Error::IO { source, location, .. } => Error::IO { source, location, chain: link },
            Error::Context { msg, location, .. } => Error::Context { msg, location, chain: link },
            Error::Any { source, location, .. } => Error::Any { source, location, chain: link },
        }
    }

    /// This node on its own, without what follows it.
    pub open spec fn detached(self) -> Error {
        self.with_link(None)
    }

    /// The nodes of the chain that starts here, in chain order, each detached.
    pub open spec fn nodes(self) -> Seq<Error>
        decreases self,
    {
        match self {
            Error::Code { chain: Some(next), .. } => seq![self.detached()] + next.nodes(),
            Error::IO { chain: Some(next), .. } => seq![self.detached()] + next.nodes(),
            Error::Context { chain: Some(next), .. } => seq![self.detached()] + next.nodes(),
            Error::Any { chain: Some(next), .. } => seq![self.detached()] + next.nodes(),
            _ => seq![self.detached()],
        }
    }

    /// The chain that starts here with `tail` attached after its last node.
    pub open spec fn chained(self, tail: Error) -> Error
        decreases self,
    {
        match self {
            Error::Code { code, location, chain: Some(next) } =>
                Error::Code { code, location, chain: Some(Box::new(next.chained(tail))) },
            Error::IO { source, location, chain: Some(next) } =>
                Error::IO { source, location, chain: Some(Box::new(next.chained(tail))) },
            Error::Context { msg, location, chain: Some(next) } =>
                Error::Context { msg, location, chain: Some(Box::new(next.chained(tail))) },
            Error::Any { source, location, chain: Some(next) } =>
                Error::Any { source, location, chain: Some(Box::new(next.chained(tail))) },
            _ => self.with_link(Some(Box::new(tail))),
        }
    }

    /// Where this node was made.
    pub fn location(&self) -> (r: Location)
        ensures
            r == self.at(),
    {
        match self {
            Error::Code { location, .. } => *location,
            Error::IO { location, .. } => *location,
            Error::Context { location, .. } => *location,
            Error::Any { location, .. } => *location,
        }
    }

    /// The node that follows this one, if any.
    pub fn next_node(&self) -> (r: Option<&Error>)
        ensures
            r is Some <==> self.link() is Some,
            r is Some ==> *r.unwrap() == *self.link().unwrap(),
    {
        match self {
            Error::Code { chain, .. } => deref_link(chain),
            Error::IO { chain, .. } => deref_link(chain),
            Error::Context { chain, .. } => deref_link(chain),
            Error::Any { chain, .. } => deref_link(chain),
        }
    }

    /// Separates this node from the node that follows it.
    fn split(self) -> (r: (Error, Option<Box<Error>>))
        ensures
            r.0 == self.detached(),
            r.1 == self.link(),
    {
        match self {
            Error::Code { code, location, chain } => (Error::Code { code, location, chain: None }, chain),
            Error::IO { source, location, chain } => (Error::IO { source, location, chain: None }, chain),
            Error::Context { msg, location, chain } => (Error::Context { msg, location, chain: None }, chain),
            Error::Any { source, location, chain } => (Error::Any { source, location, chain: None }, chain),
        }
    }

    /// This node with its link replaced by `link`.
    fn join(self, link: Option<Box<Error>>) -> (r: Error)
        ensures
            r == self.with_link(link),
    {
        match self {
            Error::Code { code, location, .. } => Error::Code { code, location, chain: link },
            Error::IO { source, location, .. } => Error::IO { source, location, chain: link },
            Error::Context { msg, location, .. } => Error::Context { msg, location, chain: link },
            Error::Any { source, location, .. } => Error::Any { source, location, chain: link },
        }
    }

    /// Attaches `next` after the last node of this chain and returns the
    /// chain, which keeps all of its nodes and its head.
    pub fn push_chain(self, next: Error) -> (r: Error)
        ensures
            r == self.chained(next),
        decreases self,
    {
        let (head, link) = self.split();
        match link {
            None => head.join(Some(Box::new(next))),
            Some(rest) => {
                let tail = (*rest).push_chain(next);
                head.join(Some(Box::new(tail)))
            },
        }
    }
}

/// The nodes of a chain are its head, detached, then the nodes of what
/// follows the head.
pub proof fn lemma_nodes_unfold(e: Error)
    ensures
        e.nodes().len() >= 1,
        e.nodes()[0] == e.detached(),
        e.link() is None ==> e.nodes() == seq![e.detached()],
        e.link() is Some ==> e.nodes() == seq![e.detached()] + e.link().unwrap().nodes(),
{
}

/// Appending never loses or reorders a node: the chain made by attaching `b`
/// after `a` holds the nodes of `a`, then those of `b`, and has as many nodes
/// as the two together.
pub proof fn lemma_append_keeps_nodes(a: Error, b: Error)
    ensures
        a.chained(b).nodes() == a.nodes() + b.nodes(),
        a.chained(b).nodes().len() == a.nodes().len() + b.nodes().len(),
    decreases a,
{
    match a.link() {
        None => {
            assert(a.chained(b).nodes() =~= a.nodes() + b.nodes());
        },
        Some(next) => {
            lemma_append_keeps_nodes(*next, b);
            assert(a.chained(b).nodes() =~= a.nodes() + b.nodes());
        },
    }
}

} // verus!
