//! Progress reporting data for long-running load operations.
//!
//! The library itself only defines the shape of an update; how updates are
//! delivered (channels, callbacks, progress bars) is the caller's concern.

use vstd::prelude::*;

verus! {

/// A snapshot of progress during a long-running operation.
#[derive(Debug, Clone)]
pub struct ProgressUpdate {
    /// A description of the current stage.
    pub stage_description: String,
    /// Number of items processed in the current stage.
    pub current_item: u64,
    /// Total number of items expected in the current stage, when known.
    pub total_items: Option<u64>,
    /// An optional message providing more context.
    pub message: Option<String>,
}

impl ProgressUpdate {
    /// Creates a new progress update.
    pub fn new(
        description: String,
        current: u64,
        total: Option<u64>,
        message: Option<String>,
    ) -> (r: ProgressUpdate)
        ensures
            r.stage_description@ == description@,
            r.current_item == current,
            r.total_items == total,
            crate::models::opt_str_view(r.message) == crate::models::opt_str_view(message),
    {
        ProgressUpdate { stage_description: description, current_item: current, total_items: total, message }
    }

    /// A fresh update that marks the start of a stage.
    pub fn new_stage(description: String, total: Option<u64>) -> (r: ProgressUpdate)
        ensures
            r.stage_description@ == description@,
            r.current_item == 0,
            r.total_items == total,
            r.message is None,
    {
        ProgressUpdate { stage_description: description, current_item: 0, total_items: total, message: None }
    }
}

} // verus!
