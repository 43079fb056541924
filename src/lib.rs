//! Verified geometry and bookkeeping behind the debug views of cartesian grids:
//! node centres, grid wireframes, grid markers and their lifecycle.
pub mod debug_plugin;
pub mod geometry;
pub mod outline;
