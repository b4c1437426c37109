use anywrap::{
    chain1, context, context_foreign, define_error, with_chain, with_context, wrap, Error,
    ErrorCode, Failure, IoFailure, Location,
};

fn loc(line: u32) -> Location {
    Location::new("src/app.rs", line, 5)
}

fn io(message: &str) -> IoFailure {
    IoFailure { message: message.to_string() }
}

#[test]
fn location_renders_file_line_column() {
    assert_eq!(Location::new("src/main.rs", 42, 7).render(), "src/main.rs:42:7");
    assert_eq!(Location::unknown().render(), "<unknown>:0:0");
    assert_eq!(Location::default().render(), "<unknown>:0:0");
}

#[test]
fn error_code_renders_in_decimal() {
    assert_eq!(ErrorCode(0).render(), "0");
    assert_eq!(ErrorCode(1).render(), "1");
    assert_eq!(ErrorCode(907).render(), "907");
    assert_eq!(ErrorCode(u32::MAX).render(), "4294967295");
}

#[test]
fn fresh_nodes_have_no_link() {
    assert!(Error::note("a".to_string(), loc(1)).next_node().is_none());
    assert!(Error::lift(Failure::Io(io("x")), loc(1)).next_node().is_none());
    assert!(Error::from(ErrorCode(3)).next_node().is_none());
}

#[test]
fn from_code_gives_code_node_at_unknown_location() {
    let e = Error::from(ErrorCode(12));
    assert!(matches!(e, Error::Code { code: ErrorCode(12), .. }));
    assert_eq!(e.summary(), "Error Code: 12");
    assert_eq!(e.location().render(), "<unknown>:0:0");
}

#[test]
fn append_keeps_both_chains_in_order() {
    let a = Error::note("a1".to_string(), loc(1)).push_chain(Error::note("a2".to_string(), loc(2)));
    let b = Error::note("b1".to_string(), loc(3))
        .push_chain(Error::note("b2".to_string(), loc(4)))
        .push_chain(Error::note("b3".to_string(), loc(5)));
    let (la, lb) = (a.dump_lines().len(), b.dump_lines().len());
    assert_eq!((la, lb), (2, 3));
    let joined = a.push_chain(b);
    let lines = joined.dump_lines();
    assert_eq!(lines.len(), la + lb);
    assert_eq!(
        lines,
        vec![
            "0: a1, at src/app.rs:1:5".to_string(),
            "1: a2, at src/app.rs:2:5".to_string(),
            "2: b1, at src/app.rs:3:5".to_string(),
            "3: b2, at src/app.rs:4:5".to_string(),
            "4: b3, at src/app.rs:5:5".to_string(),
        ]
    );
    assert_eq!(joined.summary(), "a1");
}

#[test]
fn context_on_foreign_failure_gives_two_nodes() {
    let r: Result<(), Failure> = Err(Failure::Io(io("disk full")));
    let e = context_foreign(r, "msg".to_string(), loc(9)).unwrap_err();
    assert!(matches!(&e, Error::Any { source: Failure::Io(f), .. } if f.message == "disk full"));
    let next = e.next_node().unwrap();
    assert!(matches!(next, Error::Context { msg, chain: None, .. } if msg == "msg"));
    assert_eq!(e.dump_lines().len(), 2);
    assert_eq!(e.summary(), "disk full");
    assert_eq!(e.dump(), "0: disk full, at src/app.rs:9:5\n1: msg, at src/app.rs:9:5\n");
}

#[test]
fn context_keeps_success() {
    let r: Result<u8, Error> = Ok(7);
    assert_eq!(context(r, "m".to_string(), loc(1)).ok(), Some(7));
    let r: Result<u8, Failure> = Ok(8);
    assert_eq!(context_foreign(r, "m".to_string(), loc(1)).ok(), Some(8));
    let r: Result<u8, IoFailure> = Ok(9);
    assert_eq!(wrap(r, loc(1)).ok(), Some(9));
}

#[test]
fn repeated_context_appends_at_the_tail() {
    let base = || Error::from(ErrorCode(5));
    let twice = context(context(Err::<(), Error>(base()), "m1".to_string(), loc(1)), "m2".to_string(), loc(2))
        .unwrap_err();
    let appended = base()
        .push_chain(Error::note("m1".to_string(), loc(1)))
        .push_chain(Error::note("m2".to_string(), loc(2)));
    assert_eq!(twice.dump(), appended.dump());
    assert_eq!(
        twice.dump(),
        "0: Error Code: 5, at <unknown>:0:0\n1: m1, at src/app.rs:1:5\n2: m2, at src/app.rs:2:5\n"
    );
    assert_eq!(twice.summary(), "Error Code: 5");
}

#[test]
fn wrap_gives_io_node() {
    let r: Result<(), IoFailure> = Err(io("permission denied"));
    let e = wrap(r, loc(3)).unwrap_err();
    assert!(matches!(&e, Error::IO { source, chain: None, .. } if source.message == "permission denied"));
    assert_eq!(e.summary(), "permission denied");
    assert_eq!(e.location().render(), "src/app.rs:3:5");
}

#[test]
fn downcast_matches_only_the_wrapped_kind() {
    let any_io = Error::lift(Failure::Io(io("gone")), loc(1));
    assert_eq!(any_io.downcast_io().map(|f| f.message.clone()), Some("gone".to_string()));
    assert!(any_io.downcast_message().is_none());
    let any_msg = Error::lift(Failure::Message("plain".to_string()), loc(1));
    assert!(any_msg.downcast_io().is_none());
    assert_eq!(any_msg.downcast_message().cloned(), Some("plain".to_string()));
    let wrapped = wrap(Err::<(), IoFailure>(io("gone")), loc(1)).unwrap_err();
    assert!(wrapped.downcast_io().is_none());
    assert!(Error::note("n".to_string(), loc(1)).downcast_io().is_none());
}

#[test]
fn end_to_end_io_failure_with_two_notes() {
    let base: Result<(), IoFailure> = Err(io("not found"));
    let e = context(
        context(wrap(base, loc(10)), "opening config".to_string(), loc(20)),
        "starting service".to_string(),
        loc(30),
    )
    .unwrap_err();
    let lines = e.dump_lines();
    assert_eq!(lines.len(), 3);
    assert_eq!(lines[0], "0: not found, at src/app.rs:10:5");
    assert_eq!(lines[1], "1: opening config, at src/app.rs:20:5");
    assert_eq!(lines[2], "2: starting service, at src/app.rs:30:5");
    assert_eq!(e.dump().lines().count(), 3);
    assert_eq!(e.summary(), "not found");
}

#[test]
fn example_functions_build_the_expected_chains() {
    let e = define_error().unwrap_err();
    assert_eq!(e.dump(), "0: Error Code: 1, at <unknown>:0:0\n");
    let e = chain1(loc(28)).unwrap_err();
    assert_eq!(e.dump(), "0: Error Code: 1, at <unknown>:0:0\n1: chain1, at src/app.rs:28:5\n");
    let e = with_chain(loc(32)).unwrap_err();
    assert_eq!(
        e.dump(),
        "0: Error Code: 1, at <unknown>:0:0\n1: chain1, at src/app.rs:32:5\n2: with_chain, at src/app.rs:32:5\n"
    );
    assert_eq!(e.summary(), "Error Code: 1");
}

#[test]
fn with_context_notes_the_open_failure() {
    assert!(with_context(Ok(()), loc(19)).is_ok());
    let opened = wrap(Err::<(), IoFailure>(io("No such file or directory (os error 2)")), loc(6));
    let e = with_context(opened, loc(19)).unwrap_err();
    assert_eq!(
        e.dump_lines(),
        vec![
            "0: No such file or directory (os error 2), at src/app.rs:6:5".to_string(),
            "1: 11, at src/app.rs:19:5".to_string(),
        ]
    );
}

#[test]
fn message_failure_and_note_describe_themselves() {
    assert_eq!(Failure::Message("boom".to_string()).describe(), "boom");
    assert_eq!(Failure::Io(io("eof")).describe(), "eof");
    assert_eq!(Error::note("hello anywrap".to_string(), loc(2)).line(4), "4: hello anywrap, at src/app.rs:2:5");
}
