//! A tick-based simulation of autonomous vehicle agents driving in discrete
//! lanes on a closed-loop road.
//!
//! Every tick, each agent perceives the nearest car ahead of it
//! ([`perception`]), accelerates or brakes according to its driver
//! personality ([`longitudinal`]), may decide to change into an adjacent
//! lane ([`lane_change`]), steers toward its target lane while a change is
//! active ([`lateral`]), and finally sheds a little velocity to rolling
//! resistance and integrates its motion, wrapping around at the far end of
//! the arena ([`motion`]). [`tick`] runs the five stages in that fixed
//! order and preserves every data-model invariant.
//!
//! All world quantities (positions, velocities, distances) are fixed-point
//! integers in thousandths of a world unit, so that the whole pipeline can
//! be reasoned about exactly.

pub mod components;
pub mod constants;
pub mod lane_change;
pub mod lateral;
pub mod longitudinal;
pub mod motion;
pub mod perception;
pub mod tick;
pub mod util;
