use backtrace_print::printing::{BacktraceFmt, PrintFmt};
use backtrace_print::symbols::{BytesOrWideString, Frame, PathRender, Symbol, SymbolName,
    WriteError};

/// Renders byte paths as UTF-8 and wide paths as UTF-16, never failing.
struct Utf8Render;

impl PathRender for Utf8Render {
    // Ghost item of the trait; it has no meaning outside verification and
    // is never called at run time.
    fn rendered(&self, _path: BytesOrWideString) -> vstd::seq::Seq<char> {
        panic!()
    }

    fn render_path(&self, path: &BytesOrWideString) -> Result<String, WriteError> {
        match path {
            BytesOrWideString::Bytes(b) => Ok(String::from_utf8_lossy(b).into_owned()),
            BytesOrWideString::Wide(w) => Ok(String::from_utf16_lossy(w)),
        }
    }
}

/// Stands for an output destination that refuses every write.
struct FailRender;

impl PathRender for FailRender {
    // Ghost item of the trait; it has no meaning outside verification and
    // is never called at run time.
    fn rendered(&self, _path: BytesOrWideString) -> vstd::seq::Seq<char> {
        panic!()
    }

    fn render_path(&self, _path: &BytesOrWideString) -> Result<String, WriteError> {
        Err(WriteError)
    }
}

fn name(s: &str) -> SymbolName {
    SymbolName { terse: s.to_string(), verbose: s.to_string() }
}

fn plain_symbol(s: &str) -> Symbol {
    Symbol { name: Some(name(s)), filename: None, lineno: None, colno: None }
}

#[test]
fn short_one_frame_main() {
    let mut fmt = BacktraceFmt::new(String::new(), PrintFmt::Short, Utf8Render);
    fmt.add_context().unwrap();
    let mut frame = fmt.frame();
    frame
        .symbol(&Frame { ip: 0x1000 }, &plain_symbol("main"))
        .unwrap();
    let mut fmt = frame.finish();
    fmt.finish().unwrap();
    assert_eq!(fmt.out, "   0: main\n");
}

#[test]
fn full_one_frame_main() {
    let fmt = BacktraceFmt::new(String::new(), PrintFmt::Full, Utf8Render);
    let mut frame = fmt.frame();
    frame
        .symbol(&Frame { ip: 0x1000 }, &plain_symbol("main"))
        .unwrap();
    let fmt = frame.finish();
    assert_eq!(fmt.out, "   0: 0x0000000000001000 - main\n");
}

#[test]
fn short_null_frame_writes_nothing() {
    let fmt = BacktraceFmt::new(String::new(), PrintFmt::Short, Utf8Render);
    let mut frame = fmt.frame();
    frame.symbol(&Frame { ip: 0 }, &plain_symbol("main")).unwrap();
    let fmt = frame.finish();
    assert_eq!(fmt.out, "");
    assert_eq!(fmt.frame_index, 1);
}

#[test]
fn full_null_frame_shows_zero_address() {
    let fmt = BacktraceFmt::new(String::new(), PrintFmt::Full, Utf8Render);
    let mut frame = fmt.frame();
    frame.symbol(&Frame { ip: 0 }, &plain_symbol("main")).unwrap();
    let fmt = frame.finish();
    assert_eq!(fmt.out, "   0: 0x0000000000000000 - main\n");
}

#[test]
fn short_with_location() {
    let fmt = BacktraceFmt::new(String::new(), PrintFmt::Short, Utf8Render);
    let mut frame = fmt.frame();
    frame
        .symbol(
            &Frame { ip: 0x1000 },
            &Symbol {
                name: Some(name("foo")),
                filename: Some(BytesOrWideString::Bytes(b"a.rs".to_vec())),
                lineno: Some(10),
                colno: None,
            },
        )
        .unwrap();
    let fmt = frame.finish();
    assert_eq!(fmt.out, "   0: foo\n             at a.rs:10\n");
}

#[test]
fn column_appended_when_present() {
    let fmt = BacktraceFmt::new(String::new(), PrintFmt::Short, Utf8Render);
    let mut frame = fmt.frame();
    frame
        .print_raw_with_column(
            0x1000,
            Some(&name("foo")),
            Some(&BytesOrWideString::Bytes(b"a.rs".to_vec())),
            Some(10),
            Some(5),
        )
        .unwrap();
    let fmt = frame.finish();
    assert_eq!(fmt.out, "   0: foo\n             at a.rs:10:5\n");
}

#[test]
fn location_needs_both_filename_and_line() {
    // A filename without a line number emits no location line.
    let fmt = BacktraceFmt::new(String::new(), PrintFmt::Short, Utf8Render);
    let mut frame = fmt.frame();
    frame
        .print_raw(
            0x1000,
            Some(&name("foo")),
            Some(&BytesOrWideString::Bytes(b"a.rs".to_vec())),
            None,
        )
        .unwrap();
    let fmt = frame.finish();
    assert_eq!(fmt.out, "   0: foo\n");

    // A line number without a filename emits no location line either.
    let fmt = BacktraceFmt::new(String::new(), PrintFmt::Short, Utf8Render);
    let mut frame = fmt.frame();
    frame.print_raw(0x1000, Some(&name("foo")), None, Some(10)).unwrap();
    let fmt = frame.finish();
    assert_eq!(fmt.out, "   0: foo\n");
}

#[test]
fn inlined_symbols_share_one_label() {
    let fmt = BacktraceFmt::new(String::new(), PrintFmt::Short, Utf8Render);
    let mut frame = fmt.frame();
    frame.print_raw(0x1000, Some(&name("outer")), None, None).unwrap();
    assert_eq!(frame.fmt.frame_index, 0);
    frame.print_raw(0x1000, Some(&name("inner")), None, None).unwrap();
    assert_eq!(frame.fmt.frame_index, 0);
    let fmt = frame.finish();
    assert_eq!(fmt.out, "   0: outer\n      inner\n");
    assert_eq!(fmt.frame_index, 1);
}

#[test]
fn full_continuation_indent_aligns_under_address() {
    let fmt = BacktraceFmt::new(String::new(), PrintFmt::Full, Utf8Render);
    let mut frame = fmt.frame();
    frame.print_raw(0x1000, Some(&name("outer")), None, None).unwrap();
    frame.print_raw(0x1000, Some(&name("inner")), None, None).unwrap();
    let fmt = frame.finish();
    let expected = format!(
        "   0: 0x0000000000001000 - outer\n      {}inner\n",
        " ".repeat(18 + 3)
    );
    assert_eq!(fmt.out, expected);
}

#[test]
fn full_location_right_aligned_under_address() {
    let fmt = BacktraceFmt::new(String::new(), PrintFmt::Full, Utf8Render);
    let mut frame = fmt.frame();
    frame
        .print_raw(
            0x1000,
            Some(&name("foo")),
            Some(&BytesOrWideString::Bytes(b"a.rs".to_vec())),
            Some(10),
        )
        .unwrap();
    let fmt = frame.finish();
    let expected = format!(
        "   0: 0x0000000000001000 - foo\n{}             at a.rs:10\n",
        " ".repeat(18)
    );
    assert_eq!(fmt.out, expected);
}

#[test]
fn frames_numbered_consecutively() {
    let mut fmt = BacktraceFmt::new(String::new(), PrintFmt::Short, Utf8Render);
    for n in ["a", "b", "c"] {
        let mut frame = fmt.frame();
        frame.symbol(&Frame { ip: 0x1000 }, &plain_symbol(n)).unwrap();
        fmt = frame.finish();
    }
    fmt.finish().unwrap();
    assert_eq!(fmt.out, "   0: a\n   1: b\n   2: c\n");
    assert_eq!(fmt.frame_index, 3);
}

#[test]
fn empty_frame_scope_still_advances() {
    let mut fmt = BacktraceFmt::new(String::new(), PrintFmt::Short, Utf8Render);
    let mut frame = fmt.frame();
    frame.symbol(&Frame { ip: 0x1000 }, &plain_symbol("a")).unwrap();
    fmt = frame.finish();
    // A frame scope with zero symbols rendered: nothing written, counter advances.
    let frame = fmt.frame();
    fmt = frame.finish();
    let mut frame = fmt.frame();
    frame.symbol(&Frame { ip: 0x1000 }, &plain_symbol("c")).unwrap();
    fmt = frame.finish();
    assert_eq!(fmt.out, "   0: a\n   2: c\n");
    assert_eq!(fmt.frame_index, 3);
}

#[test]
fn missing_name_renders_unknown() {
    let fmt = BacktraceFmt::new(String::new(), PrintFmt::Short, Utf8Render);
    let mut frame = fmt.frame();
    frame
        .symbol(
            &Frame { ip: 0x1000 },
            &Symbol { name: None, filename: None, lineno: None, colno: None },
        )
        .unwrap();
    let fmt = frame.finish();
    assert_eq!(fmt.out, "   0: <unknown>\n");
}

#[test]
fn terse_and_verbose_name_forms() {
    let sym = || Symbol {
        name: Some(SymbolName {
            terse: "demo::run".to_string(),
            verbose: "demo::run::hc0ffee".to_string(),
        }),
        filename: None,
        lineno: None,
        colno: None,
    };
    let fmt = BacktraceFmt::new(String::new(), PrintFmt::Short, Utf8Render);
    let mut frame = fmt.frame();
    frame.symbol(&Frame { ip: 0x40 }, &sym()).unwrap();
    let fmt = frame.finish();
    assert_eq!(fmt.out, "   0: demo::run\n");

    let fmt = BacktraceFmt::new(String::new(), PrintFmt::Full, Utf8Render);
    let mut frame = fmt.frame();
    frame.symbol(&Frame { ip: 0x40 }, &sym()).unwrap();
    let fmt = frame.finish();
    assert_eq!(fmt.out, "   0: 0x0000000000000040 - demo::run::hc0ffee\n");
}

#[test]
fn reserved_style_renders_like_no_name() {
    let fmt = BacktraceFmt::new(String::new(), PrintFmt::__Nonexhaustive, Utf8Render);
    let mut frame = fmt.frame();
    // A named symbol at a null address: the reserved style neither
    // suppresses the frame nor prints an address, and hides the name.
    frame.symbol(&Frame { ip: 0 }, &plain_symbol("visible")).unwrap();
    let fmt = frame.finish();
    assert_eq!(fmt.out, "   0: <unknown>\n");
}

#[test]
fn write_failure_propagates_and_frame_still_advances() {
    let fmt = BacktraceFmt::new(String::new(), PrintFmt::Short, FailRender);
    let mut frame = fmt.frame();
    let r = frame.symbol(
        &Frame { ip: 0x1000 },
        &Symbol {
            name: Some(name("foo")),
            filename: Some(BytesOrWideString::Bytes(b"a.rs".to_vec())),
            lineno: Some(10),
            colno: None,
        },
    );
    assert_eq!(r, Err(WriteError));
    // The symbol line and the location line's `at ` marker were already
    // written when the renderer failed — partial writes stay — and the
    // symbol counter did not advance.
    assert_eq!(frame.fmt.out, "   0: foo\n             at ");
    assert_eq!(frame.symbol_index, 0);
    // The frame counter still advances exactly once on scope close.
    let fmt = frame.finish();
    assert_eq!(fmt.frame_index, 1);
}

#[test]
fn full_write_failure_keeps_padded_location_prefix() {
    let fmt = BacktraceFmt::new(String::new(), PrintFmt::Full, FailRender);
    let mut frame = fmt.frame();
    let r = frame.symbol(
        &Frame { ip: 0x1000 },
        &Symbol {
            name: Some(name("foo")),
            filename: Some(BytesOrWideString::Bytes(b"a.rs".to_vec())),
            lineno: Some(10),
            colno: None,
        },
    );
    assert_eq!(r, Err(WriteError));
    let expected = format!(
        "   0: 0x0000000000001000 - foo\n{}             at ",
        " ".repeat(18)
    );
    assert_eq!(frame.fmt.out, expected);
}

#[test]
fn suppressed_call_leaves_symbol_counter_alone() {
    // A null-address call in the terse style writes nothing and does not
    // advance the symbol counter, so the next symbol of the same frame is
    // still the first: it gets the numeric label, not the continuation
    // indent.
    let fmt = BacktraceFmt::new(String::new(), PrintFmt::Short, Utf8Render);
    let mut frame = fmt.frame();
    frame.symbol(&Frame { ip: 0 }, &plain_symbol("ghost")).unwrap();
    assert_eq!(frame.symbol_index, 0);
    frame.symbol(&Frame { ip: 0x1000 }, &plain_symbol("real")).unwrap();
    assert_eq!(frame.symbol_index, 1);
    let fmt = frame.finish();
    assert_eq!(fmt.out, "   0: real\n");
    assert_eq!(fmt.frame_index, 1);
}

#[test]
fn formatting_twice_is_byte_identical() {
    let run = || {
        let mut fmt = BacktraceFmt::new(String::new(), PrintFmt::Full, Utf8Render);
        let mut frame = fmt.frame();
        frame
            .symbol(
                &Frame { ip: 0xdead_beef },
                &Symbol {
                    name: Some(name("outer")),
                    filename: Some(BytesOrWideString::Bytes(b"src/lib.rs".to_vec())),
                    lineno: Some(42),
                    colno: Some(7),
                },
            )
            .unwrap();
        frame.symbol(&Frame { ip: 0xdead_beef }, &plain_symbol("inner")).unwrap();
        fmt = frame.finish();
        let mut frame = fmt.frame();
        frame.symbol(&Frame { ip: 0 }, &plain_symbol("skipped")).unwrap();
        fmt = frame.finish();
        fmt.finish().unwrap();
        fmt.out
    };
    assert_eq!(run(), run());
}

#[test]
fn hex_digits_use_lower_case_letters() {
    let fmt = BacktraceFmt::new(String::new(), PrintFmt::Full, Utf8Render);
    let mut frame = fmt.frame();
    frame.symbol(&Frame { ip: 0xdead_beef }, &plain_symbol("x")).unwrap();
    let fmt = frame.finish();
    assert_eq!(fmt.out, "   0: 0x00000000deadbeef - x\n");
}

#[test]
fn wide_path_rendered_by_callback() {
    let wide: Vec<u16> = "w.rs".encode_utf16().collect();
    let fmt = BacktraceFmt::new(String::new(), PrintFmt::Short, Utf8Render);
    let mut frame = fmt.frame();
    frame
        .print_raw(0x1, Some(&name("n")), Some(&BytesOrWideString::Wide(wide)), Some(3))
        .unwrap();
    let fmt = frame.finish();
    assert_eq!(fmt.out, "   0: n\n             at w.rs:3\n");
}

#[test]
fn output_appends_to_what_the_sink_held() {
    let fmt = BacktraceFmt::new(String::from("stack backtrace:\n"), PrintFmt::Short, Utf8Render);
    let mut frame = fmt.frame();
    frame.symbol(&Frame { ip: 0x1000 }, &plain_symbol("main")).unwrap();
    let fmt = frame.finish();
    assert_eq!(fmt.out, "stack backtrace:\n   0: main\n");
}

#[test]
fn wide_frame_indices_widen_the_label() {
    let fmt = BacktraceFmt {
        out: String::new(),
        frame_index: 12,
        format: PrintFmt::Short,
        path_render: Utf8Render,
    };
    let mut frame = fmt.frame();
    frame.print_raw(0x1, Some(&name("x")), None, None).unwrap();
    let fmt = frame.finish();
    assert_eq!(fmt.out, "  12: x\n");
    assert_eq!(fmt.frame_index, 13);

    let fmt = BacktraceFmt {
        out: String::new(),
        frame_index: 12345,
        format: PrintFmt::Short,
        path_render: Utf8Render,
    };
    let mut frame = fmt.frame();
    frame.print_raw(0x1, Some(&name("x")), None, None).unwrap();
    let fmt = frame.finish();
    assert_eq!(fmt.out, "12345: x\n");
}

#[test]
fn frame_and_symbol_accessors() {
    let f = Frame { ip: 0x77 };
    assert_eq!(f.ip(), 0x77);
    let s = Symbol {
        name: Some(name("n")),
        filename: Some(BytesOrWideString::Bytes(b"f".to_vec())),
        lineno: Some(1),
        colno: Some(2),
    };
    assert_eq!(s.name().unwrap().terse, "n");
    assert!(matches!(s.filename_raw(), Some(BytesOrWideString::Bytes(_))));
    assert_eq!(s.lineno(), Some(1));
    assert_eq!(s.colno(), Some(2));
}
