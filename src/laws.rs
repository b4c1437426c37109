//! What holds of the chain operations taken together.

use vstd::prelude::*;
use crate::chain::{lemma_append_keeps_nodes, Error, Failure};
use crate::convert::{note_spec, noted, noted_foreign};
use crate::location::Location;

verus! {

/// Appending keeps the head: the node at the start of the chain, and so the
/// summary, stay what they were.
pub proof fn lemma_append_keeps_head(a: Error, b: Error)
    ensures
        a.chained(b).detached() == a.detached(),
        a.chained(b).text() == a.text(),
        a.chained(b).at() == a.at(),
{
}

/// A context note on a failure of no domain kind gives a chain of exactly two
/// nodes, the lifted failure and then the note, whose summary is the
/// failure's own description and not the note.
pub proof fn lemma_foreign_context(f: Failure, msg: String, location: Location)
    ensures
        noted_foreign(Err::<(), Failure>(f), msg, location) matches Err(e) && e.nodes() == seq![
            Error::Any { source: f, location, chain: None },
            note_spec(msg, location),
        ] && e.text() == f.text(),
{
    let head = Error::Any { source: f, location, chain: None };
    lemma_append_keeps_nodes(head, note_spec(msg, location));
    assert(head.nodes() =~= seq![head]);
    assert(note_spec(msg, location).nodes() =~= seq![note_spec(msg, location)]);
    assert(head.chained(note_spec(msg, location)).nodes() =~= seq![head, note_spec(msg, location)]);
}

/// Two context notes in turn are two appends at the tail, in the order they
/// were attached: the chain keeps its nodes and its head, and gains the two
/// notes at its end.
pub proof fn lemma_context_twice(
    c: Error,
    m1: String,
    l1: Location,
    m2: String,
    l2: Location,
)
    ensures
        noted(noted(Err::<(), Error>(c), m1, l1), m2, l2) == Err::<(), Error>(
            c.chained(note_spec(m1, l1)).chained(note_spec(m2, l2)),
        ),
        noted(noted(Err::<(), Error>(c), m1, l1), m2, l2) matches Err(e) && e.nodes() == c.nodes()
            + seq![note_spec(m1, l1), note_spec(m2, l2)] && e.detached() == c.detached(),
{
    let n1 = note_spec(m1, l1);
    let n2 = note_spec(m2, l2);
    lemma_append_keeps_nodes(c, n1);
    lemma_append_keeps_nodes(c.chained(n1), n2);
    assert(n1.nodes() =~= seq![n1]);
    assert(n2.nodes() =~= seq![n2]);
    assert(c.chained(n1).chained(n2).nodes() =~= c.nodes() + seq![n1, n2]);
    lemma_append_keeps_head(c, n1);
    lemma_append_keeps_head(c.chained(n1), n2);
}

} // verus!
