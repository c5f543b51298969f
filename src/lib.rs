//! A keyboard-driven menu navigator: a fixed hierarchy of menu screens, a cursor per
//! screen that moves with wraparound, and the transitions that keys cause.
pub mod menu;
pub mod laws;
pub mod navigation;

pub use menu::{AnalyzeMenuItem, CyclicItem, ExperimentMenuItem, MainMenuItem, ShowcaseMenuItem};
pub use navigation::{Action, App, Key, Screen};
