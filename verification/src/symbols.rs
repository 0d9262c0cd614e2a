//! The frame and symbol data the renderer consumes, and the caller-supplied
//! path-rendering capability.
//!
//! Capturing stack frames and resolving them to symbols happen outside this
//! library; a caller hands the results over as plain values of these types.
//! A filename is an encoding-agnostic path value that only the caller's
//! `PathRender` implementation knows how to turn into text.

use vstd::prelude::*;

verus! {

/// The one failure this library knows: the output destination, or the
/// path renderer writing toward it, refused a write.
#[derive(Clone, Copy, Debug, PartialEq, Eq)]
pub struct WriteError;

/// One entry of a captured call stack, identified by an instruction-pointer
/// value. Zero means "no meaningful address".
pub struct Frame {
    pub ip: u64,
}

impl Frame {
    /// The frame's instruction-pointer value.
    pub fn ip(&self) -> (r: u64)
        ensures
            r == self.ip,
    {
        self.ip
    }
}

/// A resolved symbol name, carrying its two textual renderings: a terse
/// (abbreviated, demangled) form and a verbose form. Which one is shown
/// depends on the active print style.
pub struct SymbolName {
    pub terse: String,
    pub verbose: String,
}

/// The two renderings of a `SymbolName`, as sequences of characters.
pub struct SymbolNameView {
    pub terse: Seq<char>,
    pub verbose: Seq<char>,
}

impl View for SymbolName {
    type V = SymbolNameView;

    open spec fn view(&self) -> SymbolNameView {
        SymbolNameView { terse: self.terse@, verbose: self.verbose@ }
    }
}

/// An encoding-agnostic path value: either a raw byte sequence or a
/// wide-character sequence, depending on the platform the trace came from.
/// This library never decodes it; rendering is delegated to a `PathRender`.
pub enum BytesOrWideString {
    Bytes(Vec<u8>),
    Wide(Vec<u16>),
}

/// Resolved debug information for one frame: an optional display name, an
/// optional raw filename, an optional line number and an optional column
/// number. A single frame may resolve to several symbols when inlining
/// occurred.
pub struct Symbol {
    pub name: Option<SymbolName>,
    pub filename: Option<BytesOrWideString>,
    pub lineno: Option<u32>,
    pub colno: Option<u32>,
}

impl Symbol {
    /// The symbol's display name, if it has one.
    pub fn name(&self) -> (r: Option<&SymbolName>)
        ensures
            r matches Some(n) ==> self.name matches Some(m) && n == &m,
            r is None <==> self.name is None,
    {
        self.name.as_ref()
    }

    /// The symbol's raw, still-encoded filename, if it has one.
    pub fn filename_raw(&self) -> (r: Option<&BytesOrWideString>)
        ensures
            r matches Some(p) ==> self.filename matches Some(q) && p == &q,
            r is None <==> self.filename is None,
    {
        self.filename.as_ref()
    }

    /// The line number of the symbol's source location, if known.
    pub fn lineno(&self) -> (r: Option<u32>)
        ensures
            r == self.lineno,
    {
        self.lineno
    }

    /// The column number of the symbol's source location, if known.
    pub fn colno(&self) -> (r: Option<u32>)
        ensures
            r == self.colno,
    {
        self.colno
    }
}

/// The caller-supplied capability that turns a path value into text.
///
/// The renderer must be a pure function of the path value: `rendered` names
/// the text it produces, and a successful `render_path` call returns exactly
/// that text. A failed call stands for the output destination refusing the
/// write; the renderer then returns the error instead of text.
pub trait PathRender: Sized {
    /// The text this renderer produces for `path`.
    spec fn rendered(&self, path: BytesOrWideString) -> Seq<char>;

    /// Renders `path` into text, or reports a write failure.
    fn render_path(&self, path: &BytesOrWideString) -> (r: Result<String, WriteError>)
        ensures
            r matches Ok(s) ==> s@ == self.rendered(*path),
    ;
}

} // verus!
