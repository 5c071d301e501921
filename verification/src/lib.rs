//! A verified core for rendering many copies of one mesh in a single
//! instanced draw call, driven by a per-instance attribute buffer.
//!
//! The render-side working set is an arena of entities with parallel
//! tables ([`world`]); every frame stage states exactly which GPU
//! commands it emits and which table slots it writes:
//!
//! - [`codec`] packs per-instance attributes into the 32-byte layout the
//!   shader reads, and proves that the layout round-trips bit for bit.
//! - [`buffers`] keeps one GPU buffer per entity in sync with its
//!   instance group: first sight allocates an exactly-sized buffer, an
//!   unchanged record count overwrites in place, a changed count
//!   re-creates the buffer.
//! - [`pipeline`] builds the key bitset from view settings and mesh
//!   topology, augments the base descriptor with the per-instance vertex
//!   layout, and caches one specialized pipeline per key, built at most
//!   once.
//! - [`queue`] appends, per view and per resolvable entity, one item to
//!   the view's sorted transparent phase, skipping silently what does not
//!   resolve.
//! - [`draw`] turns each queued item into the binds and the single draw
//!   call it owes, failing closed on any missing lookup.
//!
//! GPU submission, windowing, asset loading and scene setup are
//! collaborators outside the library; they hand it plain values and take
//! command lists back.

pub mod buffers;
pub mod codec;
pub mod draw;
pub mod pipeline;
pub mod queue;
pub mod world;
