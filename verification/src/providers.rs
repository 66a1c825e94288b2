//! Resource providers: the interface, its errors, and the parts of the
//! filesystem and chat providers that decide and compute.

pub mod filesystem;
pub mod ollama;
pub mod roots;

use crate::text::concat;
use crate::types::{Resource, ResourceContents};
use vstd::prelude::*;

verus! {

/// Why a resource operation failed. Each variant carries a message for the
/// reader.
#[derive(Debug, PartialEq, Eq)]
pub enum ResourceError {
    /// The path cannot be resolved, or names something of the wrong kind.
    InvalidPath(String),
    /// The path leaves the sandbox, or the file system refuses access.
    AccessDenied(String),
    /// Nothing is there: no file, or no active watch.
    NotFound(String),
    /// The file system failed; the message is the failure's own text.
    IoError(String),
    /// The watch could not be set up; the message is the failure's own text.
    WatchError(String),
}

/// The view of `ResourceError`: what the contracts see of it, with texts as sequences of
/// characters.
pub enum ResourceErrorView {
    InvalidPath(Seq<char>),
    AccessDenied(Seq<char>),
    NotFound(Seq<char>),
    IoError(Seq<char>),
    WatchError(Seq<char>),
}

impl View for ResourceError {
    type V = ResourceErrorView;

    open spec fn view(&self) -> ResourceErrorView {
        match self {
            ResourceError::InvalidPath(m) => ResourceErrorView::InvalidPath(m@),
            ResourceError::AccessDenied(m) => ResourceErrorView::AccessDenied(m@),
            ResourceError::NotFound(m) => ResourceErrorView::NotFound(m@),
            ResourceError::IoError(m) => ResourceErrorView::IoError(m@),
            ResourceError::WatchError(m) => ResourceErrorView::WatchError(m@),
        }
    }
}

impl ResourceErrorView {
    /// The error as one line of text: what kind it is, then its message.
    pub open spec fn message(self) -> Seq<char> {
        match self {
            ResourceErrorView::InvalidPath(m) => "Invalid path: "@ + m,
            ResourceErrorView::AccessDenied(m) => "Access denied: "@ + m,
            ResourceErrorView::NotFound(m) => "Not found: "@ + m,
            ResourceErrorView::IoError(m) => "IO error: "@ + m,
            ResourceErrorView::WatchError(m) => "Watch error: "@ + m,
        }
    }
}

impl ResourceError {
    /// The error as one line of text: what kind it is, then its message.
    pub fn message(&self) -> (r: String)
        ensures
            r@ == self@.message(),
    {
        match self {
            ResourceError::InvalidPath(m) => concat("Invalid path: ", m.as_str()),
            ResourceError::AccessDenied(m) => concat("Access denied: ", m.as_str()),
            ResourceError::NotFound(m) => concat("Not found: ", m.as_str()),
            ResourceError::IoError(m) => concat("IO error: ", m.as_str()),
            ResourceError::WatchError(m) => concat("Watch error: ", m.as_str()),
        }
    }
}

/// The kinds of failure of the file system that are told apart.
#[derive(Debug, Clone, Copy, PartialEq, Eq, Structural)]
pub enum IoFailureKind {
    NotFound,
    PermissionDenied,
    Other,
}

/// A failure of the file system: its kind, and its own text.
#[derive(Debug, PartialEq, Eq)]
pub struct IoFailure {
    pub kind: IoFailureKind,
    pub message: String,
}

/// The views of a list of resource contents.
pub open spec fn contents_views(v: Seq<ResourceContents>) -> Seq<crate::types::ResourceContentsView> {
    v.map_values(|c: ResourceContents| c@)
}

/// The views of a list of resources.
pub open spec fn resource_views(v: Seq<Resource>) -> Seq<crate::types::ResourceView> {
    v.map_values(|r: Resource| r@)
}

/// A source of resources that are addressed by path. An implementation
/// decides what a path means and what it may reach.
pub trait ResourceProvider {
    /// A short name for the kind of provider.
    fn name(&self) -> &'static str;

    /// The resources directly under `path`.
    fn list(&self, path: &str) -> Result<Vec<Resource>, ResourceError>;

    /// The contents of the resource at `path`.
    fn read(&self, path: &str) -> Result<Vec<ResourceContents>, ResourceError>;

    /// Starts to watch `path` for changes.
    fn watch(&self, path: &str) -> Result<(), ResourceError>;

    /// Stops watching `path`.
    fn unwatch(&self, path: &str) -> Result<(), ResourceError>;
}

} // verus!
