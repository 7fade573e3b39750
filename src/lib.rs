//! Core logic of a menubar balance monitor: settings and their defaults,
//! the budget pace calculator, the value shown in the menubar and the
//! hexagon gauge of the menubar icon.
//!
//! Numbers are fixed point: money in millionths of a currency unit,
//! percentages in hundredths of a percent (basis points), ratios in parts
//! per million.
use vstd::prelude::*;

pub mod settings;
pub mod fixed;
pub mod balance;
pub mod pace;
pub mod text;
pub mod display;
pub mod icon;
pub mod hexagon;
pub mod gauge;
pub mod compositor;
pub mod chars;
pub mod fonts;
pub mod config;
pub mod host;
pub mod json;
