//! Sessions.
//!
//! A session is one run of the engine over one stream of audio. It is bound
//! to the model it was created from and to one processing mode.

use crate::audio::{native_byte_order, pcm16, pcm16_samples, ByteOrder};
use crate::flags::SessionFlags;
use crate::model::Model;
use std::rc::Rc;
use vstd::prelude::*;

verus! {

/// The configuration that the engine creates a session from.
#[derive(Debug, Clone, Copy)]
pub struct SessionConfig {
    /// Identifies the speaker. Unused so far: always zero.
    pub speaker: [u8; 16],
    /// The code of the processing mode.
    pub flags: u32,
}

impl SessionConfig {
    /// The configuration is the one for the given mode: it carries the mode's
    /// code, and its speaker is all zero.
    pub open spec fn is_for(self, flags: SessionFlags) -> bool {
        &&& self.flags == flags.spec_bits()
        &&& forall|i: int| 0 <= i < 16 ==> self.speaker[i] == 0
    }

    /// The configuration for a session in the given mode.
    pub fn new(flags: SessionFlags) -> (config: SessionConfig)
        ensures
            config.is_for(flags),
    {
        SessionConfig { speaker: [0; 16], flags: flags.bits() }
    }
}

/// A session of the engine.
#[derive(Debug)]
pub struct Session {
    internal_session: usize,
    flags: SessionFlags,
    config: SessionConfig,
    model: Rc<Model>,
}

impl Session {
    /// The engine's handle for the session.
    pub closed spec fn handle(&self) -> usize {
        self.internal_session
    }

    /// The mode the session was created in.
    pub closed spec fn mode(&self) -> SessionFlags {
        self.flags
    }

    /// The configuration the session was created from.
    pub closed spec fn configuration(&self) -> SessionConfig {
        self.config
    }

    /// The model the session is bound to.
    pub closed spec fn bound_model(&self) -> Model {
        *self.model
    }

    #[verifier::type_invariant]
    spec fn configured(&self) -> bool {
        self.config.is_for(self.flags)
    }

    /// Binds a session that the engine created to its model and its mode.
    ///
    /// `internal_session` is the handle the engine returned when it was asked
    /// for a session of `model` with [`SessionConfig::new`] of `flags`. The
    /// session keeps its share of the model for as long as it lives.
    pub fn new(model: Rc<Model>, flags: SessionFlags, internal_session: usize) -> (session:
        Session)
        ensures
            session.handle() == internal_session,
            session.mode() == flags,
            session.configuration().is_for(flags),
            session.bound_model() == *model,
    {
        Session { internal_session, flags, config: SessionConfig::new(flags), model }
    }

    /// The engine's handle for the session.
    pub fn internal_session(&self) -> (handle: usize)
        ensures
            handle == self.handle(),
    {
        self.internal_session
    }

    /// The mode the session was created in.
    pub fn flags(&self) -> (flags: SessionFlags)
        ensures
            flags == self.mode(),
    {
        self.flags
    }

    /// The configuration the session was created from.
    pub fn config(&self) -> (config: SessionConfig)
        ensures
            config == self.configuration(),
            config.is_for(self.mode()),
    {
        proof {
            use_type_invariant(self);
        }
        self.config
    }

    /// The model the session is bound to.
    pub fn model(&self) -> (model: &Rc<Model>)
        ensures
            **model == self.bound_model(),
    {
        &self.model
    }

    /// Frames a buffer of audio into the samples that are fed to the engine.
    ///
    /// The audio is mono, 16 bits a sample in the byte order of the machine,
    /// at the sample rate of the session's model. Every full pair of bytes
    /// gives one sample, in the buffer's order; the last byte of an odd
    /// buffer is dropped.
    pub fn feed_pcm16(&self, data: Vec<u8>) -> (samples: Vec<i16>)
        ensures
            samples@.len() == data@.len() / 2,
            samples@ == pcm16(ByteOrder::LittleEndian, data@) || samples@ == pcm16(
                ByteOrder::BigEndian,
                data@,
            ),
    {
        pcm16_samples(native_byte_order(), data.as_slice())
    }

    /// Releases the session, and with it its share of the model.
    ///
    /// The engine's session is to be freed first. Where the session held the
    /// last share of its model, the engine's model is to be freed after it.
    /// No session may be released while the engine may still call its
    /// handler.
    pub fn release(self) -> (released: Released)
        ensures
            released.session == self.handle(),
            released.model matches Some(handle) ==> handle == self.bound_model().handle(),
    {
        Released { session: self.internal_session, model: Model::release(self.model) }
    }
}

/// What the release of a session leaves to be freed, in this order.
#[derive(Debug, Clone, Copy, PartialEq, Eq)]
pub struct Released {
    /// The engine's handle for the session.
    pub session: usize,
    /// The engine's handle for the model, where the session held the last
    /// share of it.
    pub model: Option<usize>,
}

} // verus!
