//! Status-bar block aggregation: classifiers that turn telemetry readings into
//! display blocks, the shared cell that holds the latest remote metric, frame
//! composition, and the line-oriented JSON encoding the bar host consumes.

pub mod text;
pub mod block;
pub mod numeral;
pub mod metric;
pub mod battery;
pub mod wireless;
pub mod clock;
pub mod output;
pub mod refresher;
pub mod frame;
