//! Block-device resolution for early boot.
//!
//! A request names a device by a token (`LABEL=...`, `UUID=...`), by an explicit
//! device path, or both, and may ask for the whole disk behind the device and
//! for one of that disk's partitions by number. The library decides which
//! questions to put to the block-device oracle, in which order, and what the
//! answers add up to; it never touches a device itself.
//!
//! To resolve a request, call [`ResolutionRequest::begin`] and, for as long as
//! the result is [`Step::Ask`], put the stage's [`Stage::query`] to the oracle
//! and hand the reply to [`Stage::answer`]. At most nine questions later the
//! step is [`Step::Resolved`] or [`Step::Failed`].
//!
//! - [`device`], [`request`], [`oracle`]: the data.
//! - [`partuuid`]: the `PARTUUID=` token of a partition UUID.
//! - [`resolver`]: the machine.
//! - [`resolution`]: what a request resolves to, stated without the machine.
//! - [`refinement`]: the proof that the machine computes exactly that.
//! - [`trace`]: which questions the machine asks.
//! - [`laws`]: what holds of every resolution.

pub mod device;
pub mod laws;
pub mod oracle;
pub mod partuuid;
pub mod refinement;
pub mod request;
pub mod resolution;
pub mod resolver;
pub mod trace;

pub use device::{DeviceHandle, ResolveError};
pub use oracle::{Query, Reply};
pub use partuuid::partuuid_token;
pub use request::{Resolution, ResolutionRequest};
pub use resolver::{Stage, Step};
