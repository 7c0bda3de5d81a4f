//! Desktop automation primitives with machine-checked contracts.
//!
//! * [`image`]: rasters of RGBA pixels and the analyses over them: exact
//!   colour search, grouping of matches into features, tolerant search for
//!   a feature, the score of a feature at one place, extraction of a
//!   region, and the histogram of a region. The model of each analysis is
//!   in [`image::model`], what holds of them in [`image::laws`].
//! * [`native_api`]: the worker that owns every native window call, for
//!   X11 and for Windows: its commands and responses, what it decides on a
//!   received command, and what it makes of the system's answers, down to
//!   the order in which a capture acquires and gives back what it needs.
//! * [`window`]: windows as callers see them: the requests of a window and
//!   the reading of the worker's replies, and the backend of a platform
//!   that has none.
//! * [`position`], [`keyboard`], [`mouse`]: the plain values of input
//!   simulation.
//! * [`global_listener`]: what a listener for the keys of the desktop
//!   reports, and who has subscribed to it.
//! * [`sequences`]: facts about sequences that the proofs share.
//!
//! The library computes and decides; it makes no native call, starts no
//! thread and reads no clock. Whoever embeds it makes the calls that the
//! library asks for and hands back what came of them.

pub mod global_listener;
pub mod image;
pub mod keyboard;
pub mod mouse;
pub mod native_api;
pub mod position;
pub mod sequences;
pub mod window;
