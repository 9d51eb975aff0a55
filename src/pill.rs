//! The context pill: its two variants, its builder and its identity.
use vstd::prelude::*;

use crate::context::{ContextKind, ContextSnapshot};
use crate::element::{ElementId, ElementKey, Icon, IconSource};

verus! {

/// A chip for one piece of context. `L` is the host's handle for a click
/// listener, typically a reference-counted closure, so that copies of a pill
/// share their listeners.
pub enum ContextPill<L> {
    /// Context that is already attached to the conversation.
    Added {
        context: ContextSnapshot,
        /// Another attached item shares this name, so the parent is shown too.
        dupe_name: bool,
        focused: bool,
        on_click: Option<L>,
        on_remove: Option<L>,
    },
    /// Context that is proposed for attachment.
    Suggested {
        name: String,
        icon_path: Option<String>,
        kind: ContextKind,
        focused: bool,
        on_click: Option<L>,
    },
}

/// Name under which the identity of an attached pill is keyed.
pub open spec fn added_key_name() -> Seq<char> {
    "context-pill"@
}

/// Identity of the one suggested pill that is visible at a time.
pub open spec fn suggested_key_name() -> Seq<char> {
    "suggested-context-pill"@
}

impl<L> ContextPill<L> {
    /// The click listener, whichever the variant.
    pub open spec fn click_listener(self) -> Option<L> {
        match self {
            ContextPill::Added { on_click, .. } => on_click,
            ContextPill::Suggested { on_click, .. } => on_click,
        }
    }

    /// The path of a custom icon image, whichever the variant.
    pub open spec fn custom_icon_path(self) -> Option<String> {
        match self {
            ContextPill::Added { context, .. } => context.icon_path,
            ContextPill::Suggested { icon_path, .. } => icon_path,
        }
    }

    /// The pill with its click listener replaced and all else kept.
    pub open spec fn with_click_listener(self, listener: L) -> Self {
        match self {
            ContextPill::Added { context, dupe_name, focused, on_remove, .. } => ContextPill::Added {
                context,
                dupe_name,
                focused,
                on_click: Some(listener),
                on_remove,
            },
            ContextPill::Suggested { name, icon_path, kind, focused, .. } => ContextPill::Suggested {
                name,
                icon_path,
                kind,
                focused,
                on_click: Some(listener),
            },
        }
    }

    /// The identity of the pill: keyed by the snapshot's id for an attached
    /// pill, a constant for a suggested one.
    pub open spec fn spec_id(self) -> ElementKey {
        match self {
            ContextPill::Added { context, .. } => ElementKey::NamedInteger(
                added_key_name(),
                context.id.0,
            ),
            ContextPill::Suggested { .. } => ElementKey::Name(suggested_key_name()),
        }
    }

    /// The icon shown first in the pill: the custom image when a path is
    /// given, else the icon registered for the kind.
    pub open spec fn spec_icon(self) -> IconSource {
        match self {
            ContextPill::Added { context, .. } => match context.icon_path {
                Some(p) => IconSource::Path(p@),
                None => IconSource::Named(context.kind.spec_icon()),
            },
            ContextPill::Suggested { icon_path, kind, .. } => match icon_path {
                Some(p) => IconSource::Path(p@),
                None => IconSource::Named(kind.spec_icon()),
            },
        }
    }

    /// A pill for attached context, with no click listener yet.
    pub fn added(
        context: ContextSnapshot,
        dupe_name: bool,
        focused: bool,
        on_remove: Option<L>,
    ) -> (r: Self)
        ensures
            r == (ContextPill::Added { context, dupe_name, focused, on_click: None, on_remove }),
    {
        ContextPill::Added { context, dupe_name, on_remove, focused, on_click: None }
    }

    /// A pill for suggested context, with no click listener yet.
    pub fn suggested(
        name: String,
        icon_path: Option<String>,
        kind: ContextKind,
        focused: bool,
    ) -> (r: Self)
        ensures
            r == (ContextPill::<L>::Suggested { name, icon_path, kind, focused, on_click: None }),
    {
        ContextPill::Suggested { name, icon_path, kind, focused, on_click: None }
    }

    /// Attaches a click listener, replacing any earlier one.
    pub fn on_click(self, listener: L) -> (r: Self)
        ensures
            r == self.with_click_listener(listener),
    {
        match self {
            ContextPill::Added { context, dupe_name, focused, on_remove, .. } => ContextPill::Added {
                context,
                dupe_name,
                focused,
                on_click: Some(listener),
                on_remove,
            },
            ContextPill::Suggested { name, icon_path, kind, focused, .. } => ContextPill::Suggested {
                name,
                icon_path,
                kind,
                focused,
                on_click: Some(listener),
            },
        }
    }

    pub fn id(&self) -> (r: ElementId)
        ensures
            r@ == self.spec_id(),
    {
        match self {
            ContextPill::Added { context, .. } => ElementId::NamedInteger(
                String::from_str("context-pill"),
                context.id.0,
            ),
            ContextPill::Suggested { .. } => ElementId::Name(
                String::from_str("suggested-context-pill"),
            ),
        }
    }

    pub fn icon(&self) -> (r: Icon)
        ensures
            r@ == self.spec_icon(),
    {
        match self {
            ContextPill::Added { context, .. } => match &context.icon_path {
                Some(icon_path) => Icon::Path(icon_path.clone()),
                None => Icon::Named(context.kind.icon()),
            },
            ContextPill::Suggested { icon_path: Some(icon_path), .. } => Icon::Path(
                icon_path.clone(),
            ),
            ContextPill::Suggested { kind, icon_path: None, .. } => Icon::Named(kind.icon()),
        }
    }
}

} // verus!
