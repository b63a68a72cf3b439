//! What can go wrong around a scene, and how the outcome of a renderer's
//! work is told to the host.
//!
//! Nothing here retries. Each failure is handed to the host once, with the
//! message that the renderer or decoder gave, and the host decides.

use vstd::prelude::*;
use crate::texture::{TextureInfo, TexturedImage};

verus! {

/// The three kinds of failure.
#[derive(Clone, Copy, Debug, PartialEq, Eq, Structural)]
pub enum ErrorKind {
    /// The context, the window or the renderer could not be set up.
    Init,
    /// An asset could not be decoded or handed to the renderer.
    Load,
    /// A blit or a present did not complete.
    Render,
}

/// A failure, with what the renderer or decoder said about it.
#[derive(Debug, PartialEq, Eq)]
pub enum SceneError {
    /// The context, the window or the renderer could not be set up.
    Init { message: String },
    /// The asset at `path` could not be decoded or handed to the renderer.
    Load { path: String, message: String },
    /// A blit or a present did not complete.
    Render { message: String },
}

impl SceneError {
    /// The kind of the failure.
    pub open spec fn spec_kind(self) -> ErrorKind {
        match self {
            SceneError::Init { .. } => ErrorKind::Init,
            SceneError::Load { .. } => ErrorKind::Load,
            SceneError::Render { .. } => ErrorKind::Render,
        }
    }

    /// What the renderer or decoder said.
    pub open spec fn spec_message(self) -> String {
        match self {
            SceneError::Init { message } => message,
            SceneError::Load { message, .. } => message,
            SceneError::Render { message } => message,
        }
    }

    /// The asset that a load failed on; `None` for the other kinds.
    pub open spec fn spec_path(self) -> Option<String> {
        match self {
            SceneError::Load { path, .. } => Some(path),
            _ => None,
        }
    }

    /// The kind of the failure.
    pub fn kind(&self) -> (k: ErrorKind)
        ensures
            k == self.spec_kind(),
    {
        match self {
            SceneError::Init { .. } => ErrorKind::Init,
            SceneError::Load { .. } => ErrorKind::Load,
            SceneError::Render { .. } => ErrorKind::Render,
        }
    }

    /// What the renderer or decoder said.
    pub fn message(&self) -> (m: &String)
        ensures
            *m == self.spec_message(),
    {
        match self {
            SceneError::Init { message } => message,
            SceneError::Load { message, .. } => message,
            SceneError::Render { message } => message,
        }
    }

    /// The asset that a load failed on; `None` for the other kinds.
    pub fn path(&self) -> (p: Option<&String>)
        ensures
            p is Some <==> self.spec_kind() == ErrorKind::Load,
            p matches Some(path) ==> self.spec_path() == Some(*path),
    {
        match self {
            SceneError::Load { path, .. } => Some(path),
            _ => None,
        }
    }
}

/// What the host learns of a step of setting up the context, the window or
/// the renderer: what the step made, or a failure of set-up with the
/// step's message.
pub fn init_outcome<T>(outcome: Result<T, String>) -> (r: Result<T, SceneError>)
    ensures
        outcome matches Ok(made) ==> r == Ok::<T, SceneError>(made),
        outcome matches Err(message) ==> r == Err::<T, SceneError>(SceneError::Init { message }),
{
    match outcome {
        Ok(made) => Ok(made),
        Err(message) => Err(SceneError::Init { message }),
    }
}

/// What the host learns of an attempt to load the asset at `path`. Where the
/// renderer took the image and reported it as `info`, the image, built as
/// `TexturedImage::new` builds it. Where decoding or the renderer failed, a
/// failure to load, with the path and the message.
pub fn load_outcome(path: String, outcome: Result<TextureInfo, String>) -> (r: Result<
    TexturedImage,
    SceneError,
>)
    ensures
        outcome matches Ok(info) ==> r matches Ok(image) && image@ == TexturedImage::spec_new(
            info,
        ),
        outcome matches Err(message) ==> r == Err::<TexturedImage, SceneError>(
            SceneError::Load { path, message },
        ),
{
    match outcome {
        Ok(info) => Ok(TexturedImage::new(info)),
        Err(message) => Err(SceneError::Load { path, message }),
    }
}

/// What the host learns of a blit that the renderer was asked for: the
/// blit's own outcome, with a failure marked as one of rendering. A failed
/// blit is not tried again.
pub fn blit_outcome(outcome: Result<(), String>) -> (r: Result<(), SceneError>)
    ensures
        outcome is Ok ==> r is Ok,
        outcome matches Err(message) ==> r == Err::<(), SceneError>(
            SceneError::Render { message },
        ),
{
    match outcome {
        Ok(()) => Ok(()),
        Err(message) => Err(SceneError::Render { message }),
    }
}

} // verus!
