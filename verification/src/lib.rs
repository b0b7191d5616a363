//! A fixed-point model of Chaikin corner cutting together with the editing and
//! animation session that drives it.
//!
//! Coordinates are whole numbers of sub-units (`SUBUNITS_PER_UNIT` to one canvas
//! unit), so every rule of the session and every step of the refinement is
//! exact integer arithmetic.

pub mod app;
pub mod event;
pub mod exact;
pub mod point;
pub mod refine;

pub use crate::app::{App, DrawCommand, SessionState, Shape, TARGET_ITERATIONS, TICK_MILLIS};
pub use crate::event::{Action, Button, Event, Key, Message, Status};
pub use crate::point::{
    find_hit, within_hit_radius, Point, HIT_RADIUS, MARKER_RADIUS, STROKE_WIDTH,
    SUBUNITS_PER_UNIT,
};
pub use crate::refine::{chaikin, refine_once, RefineError};
