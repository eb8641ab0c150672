use vstd::prelude::*;

mod completion;
mod config;
mod frame;
mod size;
mod state;

pub use completion::{lemma_ready_once, poll_results, Completion, Latencies};
pub use config::{
    lemma_workgroup_dim_bounded, resolved_size, workgroup_dim, Config, TextureFormat,
    FALLBACK_WORKGROUP_DIM, MAX_WORKGROUP_INVOCATIONS,
};
pub use frame::{
    distance, elapsed, is_burst, last_event, lemma_at_most_one_period, lemma_debounce,
    lemma_one_update_per_frame, run,
    FrameAction, FrameTimer, PERIOD_UNITS,
};
pub use size::{divides, gcd, gcd_u32, lemma_gcd_divides, lemma_gcd_positive, Size};
pub use state::{lemma_empty_resize_ignored, lemma_fixed_never_rebuilds, ResizeAction, State, SurfaceFailure};
