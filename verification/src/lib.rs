//! The rules of a Schulte-table game: a counter that expects the cells of a grid in
//! ascending order, the stopwatches that time a round, the clock face they show, the
//! random order of the cells, and the record of the UI layers the game draws into.

pub mod clock;
pub mod gameplay;
pub mod gameplay_timer;
pub mod level_progress_tracker;
pub mod schulte_gameplay_view;
pub mod sequential_counter;
pub mod timer;
pub mod timer_model;
pub mod ui_host_provider_plugin;
