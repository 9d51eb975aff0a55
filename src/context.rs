//! The context data that a pill displays.
use vstd::prelude::*;

use crate::element::IconName;

verus! {

/// Identifier of one attached context item, unique among the items of a
/// conversation.
#[derive(Clone, Copy, Debug, PartialEq, Eq, Structural)]
pub struct ContextId(pub usize);

/// The kinds of context that can be attached to a conversation.
#[derive(Clone, Copy, Debug, PartialEq, Eq, Structural)]
pub enum ContextKind {
    File,
    Directory,
    Symbol,
    FetchedUrl,
    Thread,
}

impl ContextKind {
    /// The icon registered for each kind.
    pub open spec fn spec_icon(self) -> IconName {
        match self {
            ContextKind::File => IconName::File,
            ContextKind::Directory => IconName::Folder,
            ContextKind::Symbol => IconName::Code,
            ContextKind::FetchedUrl => IconName::Globe,
            ContextKind::Thread => IconName::MessageCircle,
        }
    }

    pub fn icon(&self) -> (r: IconName)
        ensures
            r == self.spec_icon(),
    {
        match self {
            ContextKind::File => IconName::File,
            ContextKind::Directory => IconName::Folder,
            ContextKind::Symbol => IconName::Code,
            ContextKind::FetchedUrl => IconName::Globe,
            ContextKind::Thread => IconName::MessageCircle,
        }
    }
}

/// An already-computed description of one attached context item.
#[derive(Clone, Debug)]
pub struct ContextSnapshot {
    pub id: ContextId,
    pub name: String,
    /// Display name of the containing scope, shown only to tell apart items
    /// that share a name.
    pub parent: Option<String>,
    /// Path of a custom icon image; when absent the icon comes from `kind`.
    pub icon_path: Option<String>,
    pub kind: ContextKind,
    pub tooltip: Option<String>,
}

} // verus!
