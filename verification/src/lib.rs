//! Decides where newly arrived files go.
//!
//! A watched source directory reports what happens in it as low-level notification
//! events. This library turns that stream into moves: it tells directories from files,
//! follows a move-away until the matching move-into arrives, asks a filter whether an
//! entry is ready, names the source and destination paths, refuses to overwrite, and
//! bounds the retries of a move whose source is not there yet.
//!
//! The library decides and the caller acts: reading events, probing the destination,
//! renaming and sleeping are the caller's part, one step at a time.

pub mod event;
pub mod filter;
pub mod laws;
pub mod path;
pub mod retry;
pub mod route;
pub mod router;

pub use crate::event::Event;
pub use crate::event::EventKind;
pub use crate::retry::RetryPolicy;
pub use crate::route::MovePlan;
pub use crate::route::ReRoute;
pub use crate::route::RouteError;
pub use crate::router::Decision;
pub use crate::router::RunningReRouter;
