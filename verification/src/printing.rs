//! The backtrace formatter and its per-frame scope, with the exact text
//! layout each write produces.
//!
//! A `BacktraceFmt` owns the output text, the print style and the running
//! frame counter. `BacktraceFmt::frame` opens a `BacktraceFrameFmt` scope
//! for one frame; rendering symbols into the scope appends text as the spec
//! functions below say, and closing the scope with `BacktraceFrameFmt::finish`
//! hands the formatter back with its frame counter advanced exactly once,
//! however many symbols were rendered — zero, several, or some ending in a
//! write failure.

use vstd::prelude::*;
use vstd::string::StringExecFns;

use crate::symbols::{BytesOrWideString, Frame, PathRender, Symbol, SymbolName, SymbolNameView,
    WriteError};
use crate::text::{aligned4, dec_digits, hex_padded, push_aligned4, push_dec, push_hex_padded,
    push_spaces, spaces};

verus! {

/// Width of the fixed hexadecimal address field: a `0x` prefix plus two
/// digits for each of the eight bytes of an address.
pub const HEX_WIDTH: usize = 2 + 2 * 8;

/// The styles of printing that this library can produce.
///
/// New styles are additive: a style this library does not know how to lay
/// out falls back to the "no symbol name" rendering, as the reserved
/// variant shows.
#[derive(Clone, Copy, Debug, PartialEq, Eq)]
pub enum PrintFmt {
    /// A terse backtrace: no raw addresses, null-address frames suppressed,
    /// abbreviated symbol names.
    Short,
    /// A verbose backtrace: every frame labelled with its raw address,
    /// verbose symbol names.
    Full,
    /// Reserved so that styles can be added without breaking callers that
    /// match exhaustively; renders like a symbol without a name.
    __Nonexhaustive,
}

/// The fixed-width hexadecimal address field: `0x` then sixteen zero-padded
/// hexadecimal digits, `HEX_WIDTH` characters in all.
pub open spec fn hex_field(ip: u64) -> Seq<char> {
    "0x"@ + hex_padded(ip as nat, (HEX_WIDTH - 2) as nat)
}

/// What a symbol entry starts with. The first symbol of a frame carries the
/// frame's number, right-aligned to four characters, and in `Full` style the
/// address field; every later symbol of the same frame carries a blank
/// continuation indent of the same width instead.
pub open spec fn leading_text(format: PrintFmt, frame_index: nat, symbol_index: nat, ip: u64)
    -> Seq<char>
{
    if symbol_index == 0 {
        aligned4(frame_index) + ": "@
            + if format is Full { hex_field(ip) + " - "@ } else { Seq::<char>::empty() }
    } else {
        "      "@
            + if format is Full { spaces((HEX_WIDTH + 3) as nat) } else { Seq::<char>::empty() }
    }
}

/// The name portion of a symbol line: the terse rendering in `Short` style,
/// the verbose rendering in `Full` style, and `<unknown>` for a symbol
/// without a name or a style this library does not know.
pub open spec fn name_text(format: PrintFmt, name: Option<SymbolNameView>) -> Seq<char> {
    match (name, format) {
        (Some(n), PrintFmt::Short) => n.terse,
        (Some(n), PrintFmt::Full) => n.verbose,
        _ => "<unknown>"@,
    }
}

/// A symbol entry is suppressed entirely: the terse style showing a frame
/// whose address is null.
pub open spec fn suppressed(format: PrintFmt, ip: u64) -> bool {
    format is Short && ip == 0
}

/// What a location line starts with, before the rendered path: in `Full`
/// style first blank spaces as wide as the address field, then thirteen
/// spaces and `at `. This much goes into the output before the path
/// renderer is consulted, and remains there when the renderer fails.
pub open spec fn location_prefix(format: PrintFmt) -> Seq<char> {
    (if format is Full { spaces(HEX_WIDTH as nat) } else { Seq::<char>::empty() })
        + "             at "@
}

/// A location line: its prefix, then the rendered path, `:line`, `:column`
/// if a column is known, and a newline.
pub open spec fn location_text(format: PrintFmt, path_text: Seq<char>, line: u32, col: Option<u32>)
    -> Seq<char>
{
    location_prefix(format) + path_text + ":"@ + dec_digits(line as nat)
        + (match col {
            Some(c) => ":"@ + dec_digits(c as nat),
            None => Seq::<char>::empty(),
        }) + "\n"@
}

/// The symbol line alone: leading label or indent, then the name portion,
/// then a newline. When rendering the location line afterwards fails, this
/// and the location line's prefix are what remain in the output.
pub open spec fn entry_head(format: PrintFmt, frame_index: nat, symbol_index: nat, ip: u64,
    name: Option<SymbolNameView>) -> Seq<char>
{
    leading_text(format, frame_index, symbol_index, ip) + name_text(format, name) + "\n"@
}

/// Everything one fully rendered symbol entry appends to the output: nothing
/// at all for a null address in `Short` style; otherwise the symbol line,
/// followed by a location line exactly when both a path and a line number
/// are present.
pub open spec fn symbol_entry(format: PrintFmt, frame_index: nat, symbol_index: nat, ip: u64,
    name: Option<SymbolNameView>, path_text: Option<Seq<char>>, line: Option<u32>,
    col: Option<u32>) -> Seq<char>
{
    if suppressed(format, ip) {
        Seq::<char>::empty()
    } else {
        entry_head(format, frame_index, symbol_index, ip, name)
            + match (path_text, line) {
                (Some(p), Some(l)) => location_text(format, p, l, col),
                _ => Seq::<char>::empty(),
            }
    }
}

/// The view of an optional borrowed symbol name.
pub open spec fn name_view(name: Option<&SymbolName>) -> Option<SymbolNameView> {
    match name {
        Some(n) => Some(n@),
        None => None,
    }
}

/// What `render` makes of an optional borrowed path value.
pub open spec fn rendered_opt<P: PathRender>(render: P, path: Option<&BytesOrWideString>)
    -> Option<Seq<char>>
{
    match path {
        Some(p) => Some(render.rendered(*p)),
        None => None,
    }
}

/// The view of the name a `Symbol` carries.
pub open spec fn sym_name_view(s: Symbol) -> Option<SymbolNameView> {
    match s.name {
        Some(n) => Some(n@),
        None => None,
    }
}

/// What `render` makes of the filename a `Symbol` carries.
pub open spec fn sym_path_rendered<P: PathRender>(render: P, s: Symbol) -> Option<Seq<char>> {
    match s.filename {
        Some(p) => Some(render.rendered(p)),
        None => None,
    }
}

/// A formatter for backtraces.
///
/// This type can be used to print a backtrace regardless of where the
/// backtrace itself comes from: the caller feeds it frames and symbols and
/// it renders them into the text it owns.
pub struct BacktraceFmt<P: PathRender> {
    /// The text rendered so far; the formatter only ever appends to it.
    pub out: String,
    /// How many frame scopes have been opened and closed so far.
    pub frame_index: usize,
    /// The style every frame is rendered in.
    pub format: PrintFmt,
    /// The caller-supplied capability that renders filenames.
    pub path_render: P,
}

impl<P: PathRender> BacktraceFmt<P> {
    /// Creates a new `BacktraceFmt` that appends its output to `out`.
    ///
    /// The `format` argument controls the style in which the backtrace is
    /// printed, and the `path_render` argument is used to render the
    /// `BytesOrWideString` instances of filenames: this type never decodes
    /// a filename itself.
    pub fn new(out: String, format: PrintFmt, path_render: P) -> (r: BacktraceFmt<P>)
        ensures
            r.out == out,
            r.frame_index == 0,
            r.format == format,
            r.path_render == path_render,
    {
        BacktraceFmt { out, frame_index: 0, format, path_render }
    }

    /// Prints a preamble for the backtrace about to be printed.
    ///
    /// Some platforms need an output marker before frame data so the trace
    /// can be symbolicated offline later; none is needed here, so this
    /// writes nothing. It can only fail if a write fails, which the no-op
    /// form never does.
    pub fn add_context(&mut self) -> (r: Result<(), WriteError>)
        ensures
            *final(self) == *old(self),
            r is Ok,
    {
        Ok(())
    }

    /// Opens a scope for rendering one frame.
    ///
    /// The scope starts with its symbol counter at zero and takes the
    /// formatter over; closing it with `BacktraceFrameFmt::finish` hands the
    /// formatter back with the frame counter advanced. Opening the scope
    /// writes nothing.
    pub fn frame(self) -> (r: BacktraceFrameFmt<P>)
        ensures
            r.fmt == self,
            r.symbol_index == 0,
    {
        BacktraceFrameFmt { fmt: self, symbol_index: 0 }
    }

    /// Completes the backtrace output.
    ///
    /// Reserved for future format versions that need a closing marker; it
    /// writes nothing and never fails in this form.
    pub fn finish(&mut self) -> (r: Result<(), WriteError>)
        ensures
            *final(self) == *old(self),
            r is Ok,
    {
        Ok(())
    }
}

/// A formatter scope for just one frame of a backtrace, created by
/// `BacktraceFmt::frame`.
pub struct BacktraceFrameFmt<P: PathRender> {
    /// The parent formatter, held for the lifetime of the scope.
    pub fmt: BacktraceFmt<P>,
    /// How many symbols have been rendered into this scope so far.
    pub symbol_index: usize,
}

/// Everything of a frame scope but the output text is unchanged between
/// states `a` and `b`.
pub open spec fn same_but_out<P: PathRender>(a: BacktraceFrameFmt<P>, b: BacktraceFrameFmt<P>)
    -> bool
{
    &&& a.fmt.frame_index == b.fmt.frame_index
    &&& a.fmt.format == b.fmt.format
    &&& a.fmt.path_render == b.fmt.path_render
    &&& a.symbol_index == b.symbol_index
}

impl<P: PathRender> BacktraceFrameFmt<P> {
    /// Renders one traced `Frame` and `Symbol`, typically inside the
    /// caller's symbolication loop.
    pub fn symbol(&mut self, frame: &Frame, symbol: &Symbol) -> (r: Result<(), WriteError>)
        requires
            old(self).symbol_index < usize::MAX,
        ensures
            final(self).fmt.frame_index == old(self).fmt.frame_index,
            final(self).fmt.format == old(self).fmt.format,
            final(self).fmt.path_render == old(self).fmt.path_render,
            suppressed(old(self).fmt.format, frame.ip) ==> r is Ok
                && final(self).symbol_index == old(self).symbol_index
                && final(self).fmt.out@ == old(self).fmt.out@,
            r is Ok && !suppressed(old(self).fmt.format, frame.ip)
                ==> final(self).symbol_index == old(self).symbol_index + 1
                && final(self).fmt.out@ == old(self).fmt.out@ + symbol_entry(
                    old(self).fmt.format, old(self).fmt.frame_index as nat,
                    old(self).symbol_index as nat, frame.ip, sym_name_view(*symbol),
                    sym_path_rendered(old(self).fmt.path_render, *symbol), symbol.lineno,
                    symbol.colno),
            r is Err ==> final(self).symbol_index == old(self).symbol_index
                && final(self).fmt.out@ == old(self).fmt.out@ + entry_head(
                    old(self).fmt.format, old(self).fmt.frame_index as nat,
                    old(self).symbol_index as nat, frame.ip, sym_name_view(*symbol))
                    + location_prefix(old(self).fmt.format),
            symbol.filename is None || symbol.lineno is None ==> r is Ok,
    {
        self.print_raw_with_column(frame.ip(), symbol.name(), symbol.filename_raw(),
            symbol.lineno(), symbol.colno())
    }

    /// Renders one symbol entry from raw parts, without a column number.
    ///
    /// This takes the raw arguments in case they are sourced from different
    /// locations, and may be called several times on one frame scope for
    /// symbols that inlining packed into one physical frame.
    pub fn print_raw(&mut self, frame_ip: u64, symbol_name: Option<&SymbolName>,
        filename: Option<&BytesOrWideString>, lineno: Option<u32>) -> (r: Result<(), WriteError>)
        requires
            old(self).symbol_index < usize::MAX,
        ensures
            final(self).fmt.frame_index == old(self).fmt.frame_index,
            final(self).fmt.format == old(self).fmt.format,
            final(self).fmt.path_render == old(self).fmt.path_render,
            suppressed(old(self).fmt.format, frame_ip) ==> r is Ok
                && final(self).symbol_index == old(self).symbol_index
                && final(self).fmt.out@ == old(self).fmt.out@,
            r is Ok && !suppressed(old(self).fmt.format, frame_ip)
                ==> final(self).symbol_index == old(self).symbol_index + 1
                && final(self).fmt.out@ == old(self).fmt.out@ + symbol_entry(
                    old(self).fmt.format, old(self).fmt.frame_index as nat,
                    old(self).symbol_index as nat, frame_ip, name_view(symbol_name),
                    rendered_opt(old(self).fmt.path_render, filename), lineno, None),
            r is Err ==> final(self).symbol_index == old(self).symbol_index
                && final(self).fmt.out@ == old(self).fmt.out@ + entry_head(
                    old(self).fmt.format, old(self).fmt.frame_index as nat,
                    old(self).symbol_index as nat, frame_ip, name_view(symbol_name))
                    + location_prefix(old(self).fmt.format),
            filename is None || lineno is None ==> r is Ok,
    {
        self.print_raw_with_column(frame_ip, symbol_name, filename, lineno, None)
    }

    /// Renders one symbol entry from raw parts, including an optional
    /// column number: the canonical entry point.
    ///
    /// After a rendered entry the symbol counter advances, so the next
    /// entry in the same scope gets the continuation indent; a suppressed
    /// entry — the terse style showing a null address — writes nothing and
    /// leaves the counter where it was, as does a failed write.
    pub fn print_raw_with_column(&mut self, frame_ip: u64, symbol_name: Option<&SymbolName>,
        filename: Option<&BytesOrWideString>, lineno: Option<u32>, colno: Option<u32>)
        -> (r: Result<(), WriteError>)
        requires
            old(self).symbol_index < usize::MAX,
        ensures
            final(self).fmt.frame_index == old(self).fmt.frame_index,
            final(self).fmt.format == old(self).fmt.format,
            final(self).fmt.path_render == old(self).fmt.path_render,
            suppressed(old(self).fmt.format, frame_ip) ==> r is Ok
                && final(self).symbol_index == old(self).symbol_index
                && final(self).fmt.out@ == old(self).fmt.out@,
            r is Ok && !suppressed(old(self).fmt.format, frame_ip)
                ==> final(self).symbol_index == old(self).symbol_index + 1
                && final(self).fmt.out@ == old(self).fmt.out@ + symbol_entry(
                    old(self).fmt.format, old(self).fmt.frame_index as nat,
                    old(self).symbol_index as nat, frame_ip, name_view(symbol_name),
                    rendered_opt(old(self).fmt.path_render, filename), lineno, colno),
            r is Err ==> final(self).symbol_index == old(self).symbol_index
                && final(self).fmt.out@ == old(self).fmt.out@ + entry_head(
                    old(self).fmt.format, old(self).fmt.frame_index as nat,
                    old(self).symbol_index as nat, frame_ip, name_view(symbol_name))
                    + location_prefix(old(self).fmt.format),
            filename is None || lineno is None ==> r is Ok,
    {
        let skip = match self.fmt.format {
            PrintFmt::Short => frame_ip == 0,
            _ => false,
        };
        let r = self.print_raw_generic(frame_ip, symbol_name, filename, lineno, colno);
        match r {
            Ok(()) => {
                if !skip {
                    self.symbol_index = self.symbol_index + 1;
                } else {
                    proof {
                        assert(old(self).fmt.out@ + Seq::<char>::empty()
                            =~= old(self).fmt.out@);
                    }
                }
                Ok(())
            },
            Err(e) => Err(e),
        }
    }

    /// Renders one symbol entry without touching the symbol counter.
    #[verifier::rlimit(30)]
    pub fn print_raw_generic(&mut self, frame_ip: u64, symbol_name: Option<&SymbolName>,
        filename: Option<&BytesOrWideString>, lineno: Option<u32>, colno: Option<u32>)
        -> (r: Result<(), WriteError>)
        ensures
            same_but_out(*final(self), *old(self)),
            r is Ok ==> final(self).fmt.out@ == old(self).fmt.out@ + symbol_entry(
                old(self).fmt.format, old(self).fmt.frame_index as nat,
                old(self).symbol_index as nat, frame_ip, name_view(symbol_name),
                rendered_opt(old(self).fmt.path_render, filename), lineno, colno),
            r is Err ==> final(self).fmt.out@ == old(self).fmt.out@ + entry_head(
                old(self).fmt.format, old(self).fmt.frame_index as nat,
                old(self).symbol_index as nat, frame_ip, name_view(symbol_name))
                + location_prefix(old(self).fmt.format),
            suppressed(old(self).fmt.format, frame_ip) || filename is None
                || lineno is None ==> r is Ok,
    {
        // A null frame in the terse style means the unwinder traced back
        // too eagerly: write nothing at all.
        let skip = match self.fmt.format {
            PrintFmt::Short => frame_ip == 0,
            _ => false,
        };
        if skip {
            return Ok(());
        }

        // The frame's number and, in the verbose style, its address label
        // the first symbol; later symbols get blank indents of the same
        // width.
        if self.symbol_index == 0 {
            push_aligned4(&mut self.fmt.out, self.fmt.frame_index as u64);
            self.fmt.out.append(": ");
            match self.fmt.format {
                PrintFmt::Full => {
                    self.fmt.out.append("0x");
                    push_hex_padded(&mut self.fmt.out, frame_ip, HEX_WIDTH - 2);
                    self.fmt.out.append(" - ");
                },
                _ => {},
            }
        } else {
            self.fmt.out.append("      ");
            match self.fmt.format {
                PrintFmt::Full => {
                    push_spaces(&mut self.fmt.out, HEX_WIDTH + 3);
                },
                _ => {},
            }
        }
        proof {
            assert(self.fmt.out@ =~= old(self).fmt.out@ + leading_text(
                old(self).fmt.format, old(self).fmt.frame_index as nat,
                old(self).symbol_index as nat, frame_ip));
        }

        // The symbol's name, terse or verbose as the style asks, and
        // `<unknown>` where there is none to show.
        match (symbol_name, self.fmt.format) {
            (Some(name), PrintFmt::Short) => self.fmt.out.append(name.terse.as_str()),
            (Some(name), PrintFmt::Full) => self.fmt.out.append(name.verbose.as_str()),
            _ => self.fmt.out.append("<unknown>"),
        }
        self.fmt.out.append("\n");
        proof {
            assert(self.fmt.out@ =~= old(self).fmt.out@ + entry_head(
                old(self).fmt.format, old(self).fmt.frame_index as nat,
                old(self).symbol_index as nat, frame_ip, name_view(symbol_name)));
        }

        // The source location goes on a line of its own, and only when both
        // the filename and the line number are known.
        match (filename, lineno) {
            (Some(file), Some(line)) => {
                let fr = self.print_fileline(file, line, colno);
                match fr {
                    Ok(()) => {},
                    Err(e) => {
                        proof {
                            assert(self.fmt.out@ =~= old(self).fmt.out@ + entry_head(
                                old(self).fmt.format, old(self).fmt.frame_index as nat,
                                old(self).symbol_index as nat, frame_ip,
                                name_view(symbol_name))
                                + location_prefix(old(self).fmt.format));
                        }
                        return Err(e);
                    },
                }
            },
            _ => {},
        }

        proof {
            assert(self.fmt.out@ =~= old(self).fmt.out@ + symbol_entry(
                old(self).fmt.format, old(self).fmt.frame_index as nat,
                old(self).symbol_index as nat, frame_ip, name_view(symbol_name),
                rendered_opt(old(self).fmt.path_render, filename), lineno, colno));
        }
        Ok(())
    }

    /// Renders the location line for one symbol entry: the rendered
    /// filename, the line number, and the column number if one is known.
    ///
    /// The line's padding and its `at ` marker go into the output before
    /// the path renderer is consulted; when the renderer fails they remain
    /// there — partial writes are never rolled back — and the failure is
    /// returned.
    pub fn print_fileline(&mut self, file: &BytesOrWideString, line: u32, colno: Option<u32>)
        -> (r: Result<(), WriteError>)
        ensures
            same_but_out(*final(self), *old(self)),
            r is Ok ==> final(self).fmt.out@ == old(self).fmt.out@ + location_text(
                old(self).fmt.format, old(self).fmt.path_render.rendered(*file), line, colno),
            r is Err ==> final(self).fmt.out@ == old(self).fmt.out@
                + location_prefix(old(self).fmt.format),
    {
        // The filename and line sit under the symbol name; in the verbose
        // style, blank spaces as wide as the address field right-align them
        // under it.
        match self.fmt.format {
            PrintFmt::Full => {
                push_spaces(&mut self.fmt.out, HEX_WIDTH);
            },
            _ => {},
        }
        self.fmt.out.append("             at ");
        proof {
            assert(self.fmt.out@ =~= old(self).fmt.out@
                + location_prefix(old(self).fmt.format));
        }

        let rendered = self.fmt.path_render.render_path(file);
        let path_text = match rendered {
            Ok(p) => p,
            Err(e) => {
                return Err(e);
            },
        };
        self.fmt.out.append(path_text.as_str());
        self.fmt.out.append(":");
        push_dec(&mut self.fmt.out, line as u64);
        match colno {
            Some(c) => {
                self.fmt.out.append(":");
                push_dec(&mut self.fmt.out, c as u64);
            },
            None => {},
        }
        self.fmt.out.append("\n");

        proof {
            assert(self.fmt.out@ =~= old(self).fmt.out@ + location_text(
                old(self).fmt.format, old(self).fmt.path_render.rendered(*file), line, colno));
        }
        Ok(())
    }

    /// Closes the frame scope and hands the parent formatter back with its
    /// frame counter advanced by exactly one.
    ///
    /// Taking the scope by value is what makes the advance happen exactly
    /// once per opened frame: the formatter for the next frame can only be
    /// had by closing this one, whether its symbols rendered fully, not at
    /// all, or ended in a write failure.
    pub fn finish(self) -> (r: BacktraceFmt<P>)
        requires
            self.fmt.frame_index < usize::MAX,
        ensures
            r.out == self.fmt.out,
            r.format == self.fmt.format,
            r.path_render == self.fmt.path_render,
            r.frame_index == self.fmt.frame_index + 1,
    {
        let BacktraceFrameFmt { fmt, symbol_index: _ } = self;
        let mut fmt = fmt;
        fmt.frame_index = fmt.frame_index + 1;
        fmt
    }
}

} // verus!
