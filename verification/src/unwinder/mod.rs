//! The unwinder.
//!
//! A [`frame`] is found by [`find_fde`] and unwound by the rules of the frame [`table`],
//! some of which are [`expression`]s, made of [`operation`]s. A [`walk`] goes from frame to frame. It begins at
//! one of the functions of [`entry`], for an [`exception`] or for a backtrace, and shows
//! callbacks a [`context`].

pub mod arch;
pub mod context;
pub mod entry;
pub mod exception;
pub mod expression;
pub mod expression_laws;
pub mod find_fde;
pub mod frame;
pub mod frame_laws;
pub mod operation;
pub mod step_laws;
pub mod table;
pub mod walk;
pub mod walk_laws;
