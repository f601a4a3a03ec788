//! Verified coordination core of a one-button wrist clock.
//!
//! The device has a monochrome display, one push-button and a real-time
//! clock. It shows a digital clockface that is redrawn on every tick of a
//! periodic timer, and a secondary page that a button press switches to.
//!
//! This library decides; its caller acts. Each function here takes plain
//! values that the caller has read from the hardware and returns what the
//! caller has to do next. What is returned is pinned down by the function's
//! contract.
//!
//! - [`page`]: the two pages and the toggle between them.
//! - [`dispatch`]: the interrupt handler's decisions for the button edge and
//!   the periodic tick.
//! - [`render`]: the steps of one render cycle for each page.
//! - [`panel`]: a model of the display, to say what cycles and handler runs
//!   leave on the glass.
//! - [`clockface`]: the `HH:MM` and `SS` fragments and their places on the
//!   display.
//! - [`font`]: the cell geometry and the glyph sets of the two digit fonts.
//! - [`geometry`]: the bounding box of the display.
//! - [`time`]: the time of day, with each field in its range.
//! - [`registry`]: the slots of the peripheral handles and the current page.
//! - [`startup`]: the order of the start-up steps.
//!
//! Two things are taken on trust from outside crates, each behind one small
//! function that states what is assumed: the hour, minute and second that
//! `chrono` reports for a time of day, each within its range (in [`time`]),
//! and the bottom-right corner that `embedded-graphics` computes for a
//! rectangle (in [`geometry`]). Everything else is proved.

pub mod clockface;
pub mod dispatch;
pub mod font;
pub mod geometry;
pub mod page;
pub mod panel;
pub mod registry;
pub mod render;
pub mod startup;
pub mod time;
