//! Runtime core for a family of bare-metal, multi-core firmware images:
//! a typed abstraction over memory-mapped hardware registers, a singleton
//! guard arbitrating exclusive access to shared peripheral drivers, an
//! interrupt manager gating dispatch to registered handlers, and the
//! two-phase lifecycle protocol every physical core executes.
//!
//! The physical boot assembly, the concrete peripheral drivers and the
//! volatile hardware accesses themselves are external collaborators; this
//! crate holds the generic mechanisms and their proofs.

pub mod armtimer;
pub mod blink;
pub mod guard;
pub mod interrupt;
pub mod lifecycle;
pub mod register;
