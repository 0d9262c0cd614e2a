//! Verified renderer for stack-backtrace text.
//!
//! Given a sequence of captured stack frames, each resolving to zero or more
//! symbols (more than one when inlining occurred), this library produces a
//! deterministic, human-readable text form. A `BacktraceFmt` owns the output
//! text, the chosen print style and the running frame counter; each frame is
//! rendered through a `BacktraceFrameFmt` scope whose closing advances the
//! frame counter exactly once. Every line of output is pinned down by the
//! spec functions in `printing`.

pub mod text;
pub mod symbols;
pub mod printing;
pub mod laws;
