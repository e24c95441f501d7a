//! Plot frame logic: decimal text of tick values, the layout of a plot
//! window's axes, the drawing plans of its axes and curves, and the
//! animation clock that drives a live plot.

pub mod animation;
pub mod axis;
pub mod layout;
pub mod text;
pub mod trace;
