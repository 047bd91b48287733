//! Verified core of a binding to a streaming speech-recognition engine.
//!
//! The engine itself is native code that is reached through a C interface.
//! This crate holds everything the binding decides on its way to and from
//! that interface, as functions on plain values:
//!
//! - [`flags`]: the processing modes and token flags, and their wire codes;
//! - [`text`]: the engine's texts, read as UTF-8;
//! - [`token`]: the engine's token record and the token handed to a handler;
//! - [`dispatch`]: decoding of one result record into an [`AprilResult`];
//! - [`audio`]: framing of a byte buffer into 16-bit PCM samples;
//! - [`model`]: the two decisions of a model load, and the shares of a model;
//! - [`session`]: the configuration of a session, the audio it is fed, and its
//!   release.
//!
//! Whoever links the engine performs the calls and owns the native handles;
//! every value that crosses the boundary is checked or produced here.

pub mod audio;
pub mod dispatch;
pub mod error;
pub mod flags;
pub mod model;
pub mod session;
pub mod text;
pub mod token;

pub use dispatch::AprilResult;
pub use error::{AprilError, ProtocolViolation};
pub use flags::{SessionFlags, TokenFlags};
pub use model::{Model, ModelFile, APRIL_VERSION};
pub use session::{Released, Session, SessionConfig};
pub use token::{RawToken, Token};
