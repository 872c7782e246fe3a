//! Platform-neutral input capture and synthesis engine.
//!
//! The crate models keyboard and mouse activity with an abstract event
//! vocabulary, translates between that vocabulary and native Windows key
//! codes, plans the native injection calls that synthesize input, and runs
//! the decision logic of a system-wide capture session.  The operating
//! system calls themselves (sending an injection, grabbing a key, fetching
//! the next native event) are performed by the embedding application, which
//! hands this crate plain values and receives plain values back.

pub mod events;
pub mod keycodes;
pub mod registry;
pub mod synth;
pub mod capture;
