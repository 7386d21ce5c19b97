//! Two adapters over the non-blocking poll contract.
//!
//! [`IntoStream`] presents a computation of one value as a sequence of exactly one item that
//! then reports its end for good. [`Flush`] presents a writer's attempt to flush as a
//! computation of one value.
//!
//! Neither adapter schedules anything. A poll either reports a result or reports that there
//! is none yet, and whoever drives the adapter polls again once the waker of the context
//! that was passed in has been called. The adapters register nothing themselves: the
//! context goes to the computation or the writer as it came.
//!
//! [`IntoStream::poll_next`] polls the computation it holds. A writer is known to this
//! crate by nothing but the borrow, so the one who polls a [`Flush`] makes the attempt on
//! [`Flush::get_mut`] and hands the writer's answer to [`Flush::poll`].

pub mod flush;
pub mod into_stream;
pub mod task;

pub use flush::Flush;
pub use into_stream::IntoStream;
