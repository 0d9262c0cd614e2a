//! The laws this renderer obeys, proved once and for all over the spec
//! functions that the formatting contracts are stated with.
//!
//! Together with the contracts of `BacktraceFmt::new`, `BacktraceFmt::frame`
//! and `BacktraceFrameFmt::finish` — the frame counter starts at zero, a
//! scope keeps it, and closing a scope advances it by exactly one, however
//! many symbols were rendered — these laws pin down the layout of every
//! entry: which frame number a leading label shows, when the blank
//! continuation indent appears instead, when nothing is emitted at all,
//! how a name is rendered, and when a location line follows.

use vstd::prelude::*;

use crate::printing::{entry_head, hex_field, location_text, name_text, symbol_entry,
    BacktraceFmt, PrintFmt, HEX_WIDTH};
use crate::symbols::{BytesOrWideString, PathRender, SymbolNameView};
use crate::text::{aligned4, dec_digits, lemma_dec_digits_chars, lemma_dec_digits_len,
    lemma_spaces_chars, spaces};

verus! {

/// One symbol's data as the laws speak of it: the two name renderings, the
/// text the path renderer makes of the filename (or nothing, where the
/// symbol has no filename), and the line and column numbers.
pub struct SymbolData {
    pub name: Option<SymbolNameView>,
    pub path_text: Option<Seq<char>>,
    pub line: Option<u32>,
    pub col: Option<u32>,
}

/// One frame's data: its address and the symbols resolved into it, in the
/// order they are rendered.
pub struct FrameData {
    pub ip: u64,
    pub symbols: Seq<SymbolData>,
}

/// The text one frame scope appends when its symbols are rendered in
/// order: the symbol at position `j` is rendered with symbol index `j`,
/// exactly as a run of successful `print_raw_with_column` calls does —
/// every symbol of one frame shares the frame's address, so either none
/// of them is suppressed and each rendered symbol advances the index, or
/// all of them are suppressed, every entry is empty, and the index never
/// moves.
pub open spec fn frame_text(format: PrintFmt, frame_index: nat, fd: FrameData) -> Seq<char>
    decreases fd.symbols.len(),
{
    if fd.symbols.len() == 0 {
        Seq::<char>::empty()
    } else {
        let last = fd.symbols.last();
        frame_text(format, frame_index, FrameData { ip: fd.ip, symbols: fd.symbols.drop_last() })
            + symbol_entry(format, frame_index, (fd.symbols.len() - 1) as nat, fd.ip, last.name,
                last.path_text, last.line, last.col)
    }
}

/// The text a sequence of frame scopes appends when each is opened,
/// rendered and closed in turn, the first one numbered `start`.
pub open spec fn frames_text(format: PrintFmt, start: nat, frames: Seq<FrameData>) -> Seq<char>
    decreases frames.len(),
{
    if frames.len() == 0 {
        Seq::<char>::empty()
    } else {
        frames_text(format, start, frames.drop_last())
            + frame_text(format, (start + frames.len() - 1) as nat, frames.last())
    }
}

/// Law: frame scopes are numbered consecutively. Rendering one more frame
/// after a sequence of them labels it with the next index, however many
/// symbols — none included — each earlier frame rendered; and a frame that
/// rendered no symbols contributes no text at all, yet still counts.
pub proof fn lemma_frames_numbered_in_order(format: PrintFmt, start: nat,
    frames: Seq<FrameData>, fd: FrameData)
    ensures
        frames_text(format, start, frames.push(fd)) == frames_text(format, start, frames)
            + frame_text(format, start + frames.len(), fd),
        fd.symbols.len() == 0 ==> frame_text(format, start + frames.len(), fd)
            == Seq::<char>::empty(),
{
    assert(frames.push(fd).drop_last() =~= frames);
    assert(frames.push(fd).last() == fd);
}

/// Law: the first symbol rendered into a frame scope begins with the
/// numeric frame label — the frame's number right-aligned to four
/// characters, then `: ` — whenever it is rendered at all.
pub proof fn lemma_first_symbol_labelled(format: PrintFmt, frame_index: nat, ip: u64,
    name: Option<SymbolNameView>, path: Option<Seq<char>>, line: Option<u32>, col: Option<u32>)
    requires
        !(format is Short && ip == 0),
    ensures
        (aligned4(frame_index) + ": "@).is_prefix_of(
            symbol_entry(format, frame_index, 0, ip, name, path, line, col)),
{
    let label = aligned4(frame_index) + ": "@;
    let e = symbol_entry(format, frame_index, 0, ip, name, path, line, col);
    let loc = match (path, line) {
        (Some(p), Some(l)) => location_text(format, p, l, col),
        _ => Seq::<char>::empty(),
    };
    let tail = (if format is Full { hex_field(ip) + " - "@ } else { Seq::<char>::empty() })
        + name_text(format, name) + "\n"@ + loc;
    assert(e =~= label + tail);
    assert(label =~= (label + tail).subrange(0, label.len() as int));
}

/// Law: every symbol after the first in one frame scope begins with the
/// six-character blank continuation indent, and never with a numeric frame
/// label, whatever number the label would show.
pub proof fn lemma_continuation_indented(format: PrintFmt, frame_index: nat, symbol_index: nat,
    ip: u64, name: Option<SymbolNameView>, path: Option<Seq<char>>, line: Option<u32>,
    col: Option<u32>, any_label: nat)
    requires
        symbol_index > 0,
        !(format is Short && ip == 0),
    ensures
        "      "@.is_prefix_of(symbol_entry(format, frame_index, symbol_index, ip, name, path,
            line, col)),
        !(aligned4(any_label) + ": "@).is_prefix_of(symbol_entry(format, frame_index,
            symbol_index, ip, name, path, line, col)),
{
    reveal_strlit("      ");
    reveal_strlit(": ");
    let e = symbol_entry(format, frame_index, symbol_index, ip, name, path, line, col);
    let loc = match (path, line) {
        (Some(p), Some(l)) => location_text(format, p, l, col),
        _ => Seq::<char>::empty(),
    };
    let tail = (if format is Full { spaces((HEX_WIDTH + 3) as nat) } else {
        Seq::<char>::empty()
    }) + name_text(format, name) + "\n"@ + loc;
    assert(e =~= "      "@ + tail);
    assert("      "@ =~= ("      "@ + tail).subrange(0, 6));

    let label = aligned4(any_label) + ": "@;
    let ds = dec_digits(any_label);
    lemma_dec_digits_chars(any_label);
    if ds.len() < 4 {
        lemma_spaces_chars((4 - ds.len()) as nat);
        if label.is_prefix_of(e) {
            assert(label[4] == e.subrange(0, label.len() as int)[4]);
            assert(label[4] == ':');
            assert(e[4] == ' ');
            assert(false);
        }
    } else {
        if label.is_prefix_of(e) {
            assert(label[0] == e.subrange(0, label.len() as int)[0]);
            assert(label[0] == ds[0]);
            assert(ds[0] != ' ');
            assert(e[0] == ' ');
            assert(false);
        }
    }
}

/// Law: in the terse style a symbol of a frame whose address is null
/// produces no output at all.
pub proof fn lemma_short_null_silent(frame_index: nat, symbol_index: nat,
    name: Option<SymbolNameView>, path: Option<Seq<char>>, line: Option<u32>, col: Option<u32>)
    ensures
        symbol_entry(PrintFmt::Short, frame_index, symbol_index, 0, name, path, line, col)
            == Seq::<char>::empty(),
{
}

/// Law: in the verbose style the first symbol of a frame always shows the
/// fixed-width address field, the null address included.
pub proof fn lemma_full_always_addressed(frame_index: nat, ip: u64,
    name: Option<SymbolNameView>, path: Option<Seq<char>>, line: Option<u32>, col: Option<u32>)
    ensures
        symbol_entry(PrintFmt::Full, frame_index, 0, ip, name, path, line, col)
            == aligned4(frame_index) + ": "@ + hex_field(ip) + " - "@
                + name_text(PrintFmt::Full, name) + "\n"@
                + (match (path, line) {
                    (Some(p), Some(l)) => location_text(PrintFmt::Full, p, l, col),
                    _ => Seq::<char>::empty(),
                }),
{
    assert(symbol_entry(PrintFmt::Full, frame_index, 0, ip, name, path, line, col)
        =~= aligned4(frame_index) + ": "@ + hex_field(ip) + " - "@
            + name_text(PrintFmt::Full, name) + "\n"@
            + (match (path, line) {
                (Some(p), Some(l)) => location_text(PrintFmt::Full, p, l, col),
                _ => Seq::<char>::empty(),
            }));
}

/// Law: a symbol with a name renders its terse form in the terse style and
/// its verbose form in the verbose style; a symbol without a name, or a
/// style this library does not know, renders as `<unknown>`.
pub proof fn lemma_name_rendering(name: SymbolNameView, format: PrintFmt)
    ensures
        name_text(PrintFmt::Short, Some(name)) == name.terse,
        name_text(PrintFmt::Full, Some(name)) == name.verbose,
        name_text(format, None) == "<unknown>"@,
        name_text(PrintFmt::__Nonexhaustive, Some(name)) == "<unknown>"@,
{
}

/// Law: a location line appears exactly when both a path and a line number
/// are present; a missing line number suppresses it even when the path is
/// there, and the other way round.
pub proof fn lemma_location_line_iff(format: PrintFmt, frame_index: nat, symbol_index: nat,
    ip: u64, name: Option<SymbolNameView>, path: Option<Seq<char>>, line: Option<u32>,
    col: Option<u32>)
    requires
        !(format is Short && ip == 0),
    ensures
        path is None || line is None ==> symbol_entry(format, frame_index, symbol_index, ip,
            name, path, line, col) == entry_head(format, frame_index, symbol_index, ip, name),
        path matches Some(p) ==> line matches Some(l) ==> symbol_entry(format, frame_index,
            symbol_index, ip, name, path, line, col) == entry_head(format, frame_index,
            symbol_index, ip, name) + location_text(format, p, l, col),
{
    if path is None || line is None {
        assert(symbol_entry(format, frame_index, symbol_index, ip, name, path, line, col)
            =~= entry_head(format, frame_index, symbol_index, ip, name));
    } else {
        let p = path.unwrap();
        let l = line.unwrap();
        assert(symbol_entry(format, frame_index, symbol_index, ip, name, path, line, col)
            =~= entry_head(format, frame_index, symbol_index, ip, name)
                + location_text(format, p, l, col));
    }
}

/// Law: the column number is appended to the location line exactly when one
/// is present, after the line number and separated by `:`.
pub proof fn lemma_column_appended_iff(format: PrintFmt, path: Seq<char>, line: u32, col: u32)
    ensures
        location_text(format, path, line, None)
            == (if format is Full { spaces(HEX_WIDTH as nat) } else { Seq::<char>::empty() })
                + "             at "@ + path + ":"@ + dec_digits(line as nat) + "\n"@,
        location_text(format, path, line, Some(col))
            == (if format is Full { spaces(HEX_WIDTH as nat) } else { Seq::<char>::empty() })
                + "             at "@ + path + ":"@ + dec_digits(line as nat) + ":"@
                + dec_digits(col as nat) + "\n"@,
{
    assert(location_text(format, path, line, None)
        =~= (if format is Full { spaces(HEX_WIDTH as nat) } else { Seq::<char>::empty() })
            + "             at "@ + path + ":"@ + dec_digits(line as nat) + "\n"@);
    assert(location_text(format, path, line, Some(col))
        =~= (if format is Full { spaces(HEX_WIDTH as nat) } else { Seq::<char>::empty() })
            + "             at "@ + path + ":"@ + dec_digits(line as nat) + ":"@
            + dec_digits(col as nat) + "\n"@);
}

/// One symbol's data as a caller supplies it, before any path rendering:
/// the two name renderings, the raw filename, and the line and column
/// numbers.
pub struct SymbolInput {
    pub name: Option<SymbolNameView>,
    pub filename: Option<BytesOrWideString>,
    pub line: Option<u32>,
    pub col: Option<u32>,
}

/// One frame's data as a caller supplies it: its address and the symbols
/// resolved into it, in the order they are rendered.
pub struct FrameInput {
    pub ip: u64,
    pub symbols: Seq<SymbolInput>,
}

/// What `render` makes of one supplied symbol: the raw filename becomes
/// the rendered path text.
pub open spec fn symbol_data_for<P: PathRender>(render: P, s: SymbolInput) -> SymbolData {
    SymbolData {
        name: s.name,
        path_text: match s.filename {
            Some(p) => Some(render.rendered(p)),
            None => None,
        },
        line: s.line,
        col: s.col,
    }
}

/// What `render` makes of one supplied frame.
pub open spec fn frame_data_for<P: PathRender>(render: P, f: FrameInput) -> FrameData {
    FrameData {
        ip: f.ip,
        symbols: f.symbols.map_values(|s: SymbolInput| symbol_data_for(render, s)),
    }
}

/// Law: a whole backtrace's text is a function of the style and the frame
/// data alone. Rendering the same sequence of frames in the same style
/// through two formatters — fresh or not, of different renderer types —
/// yields byte-identical text, as long as the two renderers make the same
/// text of every path value; in particular, formatting the same input
/// twice through fresh formatter instances is idempotent.
pub proof fn lemma_backtrace_deterministic<P: PathRender, Q: PathRender>(pr: P, qr: Q,
    format: PrintFmt, start: nat, frames: Seq<FrameInput>)
    requires
        forall|p: BytesOrWideString| #[trigger] pr.rendered(p) == qr.rendered(p),
    ensures
        frames_text(format, start, frames.map_values(|f: FrameInput| frame_data_for(pr, f)))
            == frames_text(format, start,
                frames.map_values(|f: FrameInput| frame_data_for(qr, f))),
{
    let fa = frames.map_values(|f: FrameInput| frame_data_for(pr, f));
    let fb = frames.map_values(|f: FrameInput| frame_data_for(qr, f));
    assert forall|i: int| 0 <= i < frames.len() implies fa[i] == fb[i] by {
        let f = frames[i];
        let sa = f.symbols.map_values(|s: SymbolInput| symbol_data_for(pr, s));
        let sb = f.symbols.map_values(|s: SymbolInput| symbol_data_for(qr, s));
        assert forall|j: int| 0 <= j < f.symbols.len() implies sa[j] == sb[j] by {
            assert(pr.rendered(f.symbols[j].filename.unwrap())
                == qr.rendered(f.symbols[j].filename.unwrap()));
        };
        assert(sa =~= sb);
    };
    assert(fa =~= fb);
}

/// Law: what a symbol entry appends depends only on the style, the two
/// counters, the symbol data and the text the path renderer produces. Two
/// formatters in the same state — even with different renderer types, as
/// long as they render the filename to the same text — append identical
/// output, so formatting the same data again through a fresh formatter
/// yields byte-identical text.
pub proof fn lemma_rendering_deterministic<P: PathRender, Q: PathRender>(a: BacktraceFmt<P>,
    b: BacktraceFmt<Q>, symbol_index: nat, ip: u64, name: Option<SymbolNameView>,
    file: Option<BytesOrWideString>, line: Option<u32>, col: Option<u32>)
    requires
        a.format == b.format,
        a.frame_index == b.frame_index,
        (file matches Some(f) ==> a.path_render.rendered(f) == b.path_render.rendered(f)),
    ensures
        symbol_entry(a.format, a.frame_index as nat, symbol_index, ip, name,
            (match file {
                Some(f) => Some(a.path_render.rendered(f)),
                None => None,
            }), line, col)
            == symbol_entry(b.format, b.frame_index as nat, symbol_index, ip, name,
            (match file {
                Some(f) => Some(b.path_render.rendered(f)),
                None => None,
            }), line, col),
{
}

} // verus!
