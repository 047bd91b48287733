//! Loading a model.
//!
//! A load takes two decisions. The first is taken on the path alone: where it
//! names no existing file the load ends with [`AprilError::FileNotFound`] and
//! the engine is never asked. The second is taken on what the engine hands
//! back for the file: a handle, or nothing.

use crate::error::AprilError;
use std::rc::Rc;
use vstd::prelude::*;

verus! {

/// The version of the engine's interface that this library speaks. The
/// engine is initialised with it, once, before anything else is asked of it.
pub const APRIL_VERSION: i32 = 1;

/// A file that may hold a model: its path was looked up and names an
/// existing file.
///
/// Only [`Model::locate`] makes one, so whoever holds one has passed the
/// first decision of a load.
#[derive(Debug)]
pub struct ModelFile {
    located: (),
}

/// A speech recognition model that the engine has loaded.
///
/// A model is shared: any number of sessions can be created from one.
#[derive(Debug)]
pub struct Model {
    internal_model: usize,
}

impl Model {
    /// The engine's handle for the model.
    pub closed spec fn handle(&self) -> usize {
        self.internal_model
    }

    #[verifier::type_invariant]
    spec fn loaded(&self) -> bool {
        self.internal_model != 0
    }

    /// The first decision of a load, taken on whether the path names an
    /// existing file.
    ///
    /// A missing file ends the load here: there is no [`ModelFile`] to go on
    /// with, and so nothing to ask the engine for.
    pub fn locate(file_exists: bool) -> (located: Result<ModelFile, AprilError>)
        ensures
            located is Ok <==> file_exists,
            located matches Err(error) ==> error == AprilError::FileNotFound,
    {
        if !file_exists {
            return Err(AprilError::FileNotFound);
        }
        Ok(ModelFile { located: () })
    }

    /// The second decision of a load, taken on the handle that the engine
    /// returned for the file; zero stands for no handle.
    ///
    /// The engine hands out no handle for a file that it cannot read as a
    /// model.
    pub fn new(file: ModelFile, internal_model: usize) -> (loaded: Result<Rc<Model>, AprilError>)
        ensures
            loaded is Ok <==> internal_model != 0,
            loaded matches Ok(model) ==> model.handle() == internal_model,
            loaded matches Err(error) ==> error == AprilError::InvalidModel,
    {
        let ModelFile { located: () } = file;
        if internal_model == 0 {
            return Err(AprilError::InvalidModel);
        }
        Ok(Rc::new(Model { internal_model }))
    }

    /// The engine's handle for the model. It is never zero.
    pub fn internal_model(&self) -> (handle: usize)
        ensures
            handle == self.handle(),
            handle != 0,
    {
        proof {
            use_type_invariant(self);
        }
        self.internal_model
    }

    /// Gives up one share of the model.
    ///
    /// Whoever gives up the last share is handed the engine's handle, to
    /// free it; as long as a session or anyone else holds a share there is
    /// nothing to free. So the engine's model is freed once, and only after
    /// each of its sessions was released.
    pub fn release(model: Rc<Model>) -> (freed: Option<usize>)
        ensures
            freed matches Some(handle) ==> handle == model.handle() && handle != 0,
    {
        Self::handle_to_free(Rc::into_inner(model))
    }

    /// Tells what is to be freed from what became of a share that was given
    /// up: `last` is the model itself where the share was the last one, and
    /// nothing where others are still held.
    ///
    /// The last share leaves the engine's handle to be freed. Any other
    /// share leaves nothing.
    pub fn handle_to_free(last: Option<Model>) -> (freed: Option<usize>)
        ensures
            last is None <==> freed is None,
            last matches Some(model) ==> freed == Some(model.handle()),
            freed matches Some(handle) ==> handle != 0,
    {
        match last {
            Some(model) => Some(model.internal_model()),
            None => None,
        }
    }
}

} // verus!
