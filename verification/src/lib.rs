//! The boundary between a conversation runtime and its clients.
//!
//! The runtime owns the conversation. It reports what happens; the
//! [projection](projection::RuntimeClientProjection) folds every report into a read model
//! and publishes what a client may learn of it, under cursors that never repeat and never
//! wrap. A client takes a snapshot at a cursor and follows the stream from there, without
//! a gap or with a plain word that it has to begin anew.
//!
//! ```text
//! reports of the runtime
//!         |
//!         v
//! projection: read model, cursor, bounded ring of events, subscribers
//!         |
//!         v
//! host: one client with control, any number that only observe
//!         |
//!         v
//! attachment, endpoint: requests, and the calls of the runtime that they become
//! ```
//!
//! Beside the stream stands the [transcript](response): its pages are decorated with what
//! the durable journal says of completed responses, their usage and their time.
//!
//! Nothing here locks, waits or does input and output. What concerns the runtime leaves
//! as a [call](control::RuntimeCall) and comes back as a [reply](control::RuntimeReply).
//!
//! Every type with a list has a model, its value over sequences; contracts relate models.
//! Laws that span functions are proved in the modules whose names end in `_laws`.
pub mod attachment;
pub mod attempt;
pub mod bootstrap;
pub mod bootstrap_laws;
pub mod call_laws;
pub mod clock;
pub mod control;
pub mod endpoint;
pub mod event;
pub mod evidence;
pub mod evidence_laws;
pub mod failure_laws;
pub mod fold;
pub mod fold_laws;
pub mod host;
pub mod host_laws;
pub mod identity;
pub mod interaction;
pub mod journal;
pub mod json;
pub mod lists;
pub mod memory;
pub mod memory_laws;
pub mod message;
pub mod model;
pub mod observation;
pub mod page_laws;
pub mod projection;
pub mod projection_laws;
pub mod protocol;
pub mod publication;
pub mod report_laws;
pub mod request_laws;
pub mod response;
pub mod response_laws;
pub mod search;
pub mod session_deletion;
pub mod share;
pub mod snapshot;
pub mod store;
pub mod stream_laws;
pub mod text;
pub mod timing;
pub mod timing_laws;
pub mod tool;
pub mod total_laws;
pub mod view_laws;
pub mod views;
pub mod wake;
