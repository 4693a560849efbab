//! Grid track generation for a CSS-style grid layout engine.
//!
//! Two components are exposed, consumed in sequence by a grid sizing phase,
//! once per axis:
//!
//! 1. [`explicit_grid::compute_explicit_grid_size_in_axis`] resolves a track
//!    template to the number of explicit tracks in one axis, including the
//!    resolution of at most one `auto-fill`/`auto-fit` repetition against the
//!    available space.
//! 2. [`tracks::initialize_grid_tracks`] consumes the resolved counts and
//!    materializes the full ordered track list for the axis: tracks
//!    interleaved with gutters, with `auto-fit` collapsing applied.
//!
//! All sizes are integer layout units; percentages are whole percent points
//! resolved against a reference size.

pub mod explicit_grid;
pub mod geometry;
pub mod properties;
pub mod sizing;
pub mod template;
pub mod tracks;
