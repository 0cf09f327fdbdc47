//! Navigation state and summary text for an interactive inspector of
//! calibration-solution archives.
//!
//! An archive holds solution sets, and each solution set holds solution
//! tables. The inspector keeps a selection over both levels, moves it with
//! wraparound, and renders a plain-text summary of whatever is selected.
//! Every function here is verified against a contract stated over the
//! mathematical views of the data.

pub mod archive;
pub mod laws;
pub mod navigation;
pub mod stations;
pub mod summary;
pub mod text;

pub use archive::{Axis, SolSet, SolTab};
pub use navigation::{App, CurrentScreen, CurrentlyEditing};
