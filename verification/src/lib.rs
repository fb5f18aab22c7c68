//! A client-side event batching runtime: producers enqueue named records
//! without ever blocking, and a background dispatcher drains them into
//! bounded batches, encodes each batch as one JSON body, and has it delivered
//! over HTTP — best effort, one attempt per batch.
//!
//! The decisions are all here and verified: how records are built and
//! enqueued (`event`, `queue`), how wake requests coalesce (`wake`), how much
//! a drain cycle takes and when the loop re-drains or goes idle (`dispatch`),
//! and the exact bytes of every batch body (`wire`). The async plumbing —
//! the timer, the channel's consumer side, the HTTP POST — sits outside the
//! library and only carries these decisions out.

pub mod dispatch;
pub mod event;
pub mod queue;
pub mod wake;
pub mod wire;
