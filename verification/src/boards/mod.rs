//! What a board offers to the engine.

pub mod io_router;
