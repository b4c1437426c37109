//! A small application's use of the chain: a failure code, and notes added
//! to it by the callers it passes through.

use vstd::prelude::*;
use crate::chain::{Error, ErrorCode};
use crate::convert::{context, is_note, note_spec};
use crate::location::Location;

verus! {

broadcast use vstd::string::group_string_axioms;

/// Fails with the code 1, at the unknown location.
pub fn define_error() -> (r: Result<(), Error>)
    ensures
        r == Err::<(), Error>(
            Error::Code { code: ErrorCode(1), location: Location::unknown_spec(), chain: None },
        ),
{
    let e = Error::from(ErrorCode(1));
    Err(e)
}

/// The failure of `define_error` with the note `chain1`, made at `at`.
pub fn chain1(at: Location) -> (r: Result<(), Error>)
    ensures
        r is Err,
        r->Err_0.nodes().len() == 2,
        r->Err_0.nodes()[0] == (Error::Code {
            code: ErrorCode(1),
            location: Location::unknown_spec(),
            chain: None,
        }),
        is_note(r->Err_0.nodes()[1], "chain1"@, at),
{
    let msg = "chain1".to_string();
    let ghost note = note_spec(msg, at);
    let r = context(define_error(), msg, at);
    proof {
        let code = Error::Code { code: ErrorCode(1), location: Location::unknown_spec(), chain: None };
        crate::chain::lemma_append_keeps_nodes(code, note);
        assert(code.nodes() =~= seq![code]);
        assert(note.nodes() =~= seq![note]);
    }
    r
}

/// The failure of `chain1` with the note `with_chain` after it, all notes
/// made at `at`.
pub fn with_chain(at: Location) -> (r: Result<(), Error>)
    ensures
        r is Err,
        r->Err_0.nodes().len() == 3,
        r->Err_0.nodes()[0] == (Error::Code {
            code: ErrorCode(1),
            location: Location::unknown_spec(),
            chain: None,
        }),
        is_note(r->Err_0.nodes()[1], "chain1"@, at),
        is_note(r->Err_0.nodes()[2], "with_chain"@, at),
{
    let inner = chain1(at);
    let msg = "with_chain".to_string();
    let ghost (e, note) = (inner->Err_0, note_spec(msg, at));
    let r = context(inner, msg, at);
    proof {
        crate::chain::lemma_append_keeps_nodes(e, note);
        assert(note.nodes() =~= seq![note]);
    }
    r
}

/// The outcome of opening a file, `opened`, with the note `11`, made at `at`,
/// attached to its failure.
pub fn with_context(opened: Result<(), Error>, at: Location) -> (r: Result<(), Error>)
    ensures
        r is Ok <==> opened is Ok,
        opened is Err ==> {
            let (e, f) = (opened->Err_0, r->Err_0);
            &&& f.nodes().len() == e.nodes().len() + 1
            &&& f.nodes().subrange(0, e.nodes().len() as int) == e.nodes()
            &&& is_note(f.nodes().last(), "11"@, at)
        },
{
    let msg = "11".to_string();
    let ghost (before, note) = (opened, note_spec(msg, at));
    let r = context(opened, msg, at);
    proof {
        if let Err(e) = before {
            crate::chain::lemma_append_keeps_nodes(e, note);
            assert(note.nodes() =~= seq![note]);
            assert(r->Err_0.nodes().subrange(0, e.nodes().len() as int) =~= e.nodes());
        }
    }
    r
}

} // verus!
