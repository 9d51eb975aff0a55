//! Laying a pill out into a plain description of its visual tree, and routing
//! clicks on that tree to the pill's listeners.
use vstd::prelude::*;

use crate::context::ContextKind;
use crate::element::{
    Color, ElementId, ElementKey, Icon, IconName, IconSize, Label, LabelSize, Shade, ThemeTone,
    Tooltip,
};
use crate::pill::ContextPill;

verus! {

/// Widest a pill's name may grow before it is truncated, in spacing units.
pub const NAME_MAX_WIDTH: u32 = 64;

/// Padding left of the icon, in pixels.
pub const PADDING_LEFT: u32 = 4;

/// Padding under the content, in pixels.
pub const PADDING_BOTTOM: u32 = 1;

/// Padding right of the content, in pixels, when nothing trails the name.
pub const PADDING_RIGHT: u32 = 4;

/// Padding right of a remove button, in pixels: tighter around the button.
pub const PADDING_RIGHT_TIGHT: u32 = 2;

/// Horizontal inset of a suggested pill's name, in pixels.
pub const SUGGESTED_NAME_INSET: u32 = 2;

/// The button that detaches a context item from the conversation.
#[derive(Clone, Debug)]
pub struct RemoveButton {
    pub id: ElementId,
    pub icon: IconName,
    pub icon_size: IconSize,
    pub square: bool,
    pub tooltip: Tooltip,
}

/// The name of an attached item, with what disambiguates and describes it.
#[derive(Clone, Debug)]
pub struct NameRegion {
    pub id: ElementId,
    pub name: Label,
    pub name_max_width: u32,
    /// The parent's name, shown after the item's own.
    pub parent: Option<Label>,
    /// Shown on hover over the whole region.
    pub tooltip: Option<Tooltip>,
}

/// What follows the icon, by variant.
#[derive(Clone, Debug)]
pub enum PillBody {
    Added { name_region: NameRegion, remove_button: Option<RemoveButton> },
    Suggested {
        name: Label,
        name_max_width: u32,
        name_inset: u32,
        status: Label,
        trailing_icon: IconName,
        trailing_icon_size: IconSize,
    },
}

/// A pill laid out: a row with a border and rounded corners whose first child
/// is the icon.
#[derive(Clone, Debug)]
pub struct PillLayout {
    pub id: ElementId,
    pub icon: Icon,
    pub icon_size: IconSize,
    pub icon_color: Color,
    pub padding_left: u32,
    pub padding_right: u32,
    pub padding_bottom: u32,
    pub background: Option<Shade>,
    pub hover_background: Option<Shade>,
    pub border: Shade,
    pub pointer_cursor: bool,
    /// Shown on hover over the whole pill.
    pub tooltip: Option<Tooltip>,
    /// Whether a click anywhere on the pill reaches its click listener.
    pub clickable: bool,
    pub body: PillBody,
}

/// The status shown after a suggested item's name: all kinds but files share
/// one text.
pub open spec fn status_text(kind: ContextKind) -> Seq<char> {
    match kind {
        ContextKind::File => "Active Tab"@,
        _ => "Active"@,
    }
}

pub open spec fn tooltip_text_is(t: Tooltip, text: Seq<char>) -> bool {
    t matches Tooltip::Text(s) && s@ == text
}

pub open spec fn label_is(l: Label, text: Seq<char>, size: LabelSize, color: Color) -> bool {
    &&& l.text@ == text
    &&& l.size == size
    &&& l.color == color
}

/// Which of a pill's listeners a click reaches.
#[derive(Clone, Copy, Debug, PartialEq, Eq, Structural)]
pub enum ListenerSlot {
    Click,
    Remove,
}

/// Where on a pill a click lands.
#[derive(Clone, Copy, Debug, PartialEq, Eq, Structural)]
pub enum ClickTarget {
    /// The remove button, where the pill has one.
    RemoveButton,
    /// Anywhere else on the pill.
    Pill,
}

impl<L> ContextPill<L> {
    pub open spec fn is_focused(self) -> bool {
        match self {
            ContextPill::Added { focused, .. } => focused,
            ContextPill::Suggested { focused, .. } => focused,
        }
    }

    /// The border: the focused tone, else a half-transparent resting tone.
    pub open spec fn spec_border(self) -> Shade {
        if self.is_focused() {
            Shade { tone: ThemeTone::BorderFocused, half_opacity: false }
        } else {
            match self {
                ContextPill::Added { .. } => Shade { tone: ThemeTone::Border, half_opacity: true },
                ContextPill::Suggested { .. } => Shade {
                    tone: ThemeTone::BorderVariant,
                    half_opacity: true,
                },
            }
        }
    }

    /// An attached pill shows its parent's name exactly when its name is
    /// shared and it has a parent.
    pub open spec fn shows_parent(self) -> bool {
        self matches ContextPill::Added { context, dupe_name, .. } && dupe_name
            && context.parent is Some
    }

    /// An attached pill has a remove button exactly when it has a remove
    /// listener.
    pub open spec fn shows_remove_button(self) -> bool {
        self matches ContextPill::Added { on_remove, .. } && on_remove is Some
    }

    pub open spec fn spec_padding_right(self) -> u32 {
        if self.shows_remove_button() {
            PADDING_RIGHT_TIGHT
        } else {
            PADDING_RIGHT
        }
    }

    /// The listener that a click on `target` reaches: the remove button keeps
    /// its clicks to itself, and the rest of the pill goes to the click
    /// listener.
    pub open spec fn spec_route(self, target: ClickTarget) -> Option<ListenerSlot> {
        match target {
            ClickTarget::RemoveButton => if self.shows_remove_button() {
                Some(ListenerSlot::Remove)
            } else {
                None
            },
            ClickTarget::Pill => if self.click_listener() is Some {
                Some(ListenerSlot::Click)
            } else {
                None
            },
        }
    }

    pub open spec fn spec_listener(self, slot: ListenerSlot) -> Option<L> {
        match slot {
            ListenerSlot::Click => self.click_listener(),
            ListenerSlot::Remove => match self {
                ContextPill::Added { on_remove, .. } => on_remove,
                ContextPill::Suggested { .. } => None,
            },
        }
    }

    /// The part of the layout that both variants share.
    pub open spec fn lays_out_shell(self, r: PillLayout) -> bool {
        &&& r.id@ == self.spec_id()
        &&& r.icon@ == self.spec_icon()
        &&& r.icon_size == IconSize::XSmall
        &&& r.icon_color == Color::Muted
        &&& r.padding_left == PADDING_LEFT
        &&& r.padding_right == self.spec_padding_right()
        &&& r.padding_bottom == PADDING_BOTTOM
        &&& r.border == self.spec_border()
        &&& r.clickable == (self.click_listener() is Some)
    }

    /// The layout of an attached pill.
    pub open spec fn lays_out_added(self, r: PillLayout) -> bool {
        &&& self matches ContextPill::Added { context, on_remove, .. }
        &&& r.background == Some(Shade { tone: ThemeTone::ElementBackground, half_opacity: false })
        &&& r.hover_background is None
        &&& !r.pointer_cursor
        &&& r.tooltip is None
        &&& r.body matches PillBody::Added { name_region, remove_button }
        &&& name_region.id@ == ElementKey::Name("context-data"@)
        &&& label_is(name_region.name, context.name@, LabelSize::Small, Color::Default)
        &&& name_region.name.truncate
        &&& name_region.name_max_width == NAME_MAX_WIDTH
        &&& (name_region.parent is Some <==> self.shows_parent())
        &&& (self.shows_parent() ==> label_is(
            name_region.parent.unwrap(),
            context.parent.unwrap()@,
            LabelSize::XSmall,
            Color::Muted,
        ))
        &&& (name_region.tooltip is Some <==> context.tooltip is Some)
        &&& (context.tooltip is Some ==> tooltip_text_is(
            name_region.tooltip.unwrap(),
            context.tooltip.unwrap()@,
        ))
        &&& (remove_button is Some <==> on_remove is Some)
        &&& (remove_button matches Some(b) ==> {
            &&& b.id@ == ElementKey::NamedInteger("remove"@, context.id.0)
            &&& b.icon == IconName::Close
            &&& b.icon_size == IconSize::XSmall
            &&& b.square
            &&& tooltip_text_is(b.tooltip, "Remove Context"@)
        })
    }

    /// The layout of a suggested pill.
    pub open spec fn lays_out_suggested(self, r: PillLayout) -> bool {
        &&& self matches ContextPill::Suggested { name, kind, .. }
        &&& r.background is None
        &&& r.hover_background == Some(Shade { tone: ThemeTone::ElementHover, half_opacity: true })
        &&& r.pointer_cursor
        &&& r.tooltip matches Some(Tooltip::WithMeta { title, secondary, meta })
        &&& title@ == "Suggested Context"@
        &&& secondary is None
        &&& meta@ == "Click to add it"@
        &&& r.body matches PillBody::Suggested {
            name: name_label,
            name_max_width,
            name_inset,
            status,
            trailing_icon,
            trailing_icon_size,
        }
        &&& label_is(name_label, name@, LabelSize::Small, Color::Muted)
        &&& name_label.truncate
        &&& name_max_width == NAME_MAX_WIDTH
        &&& name_inset == SUGGESTED_NAME_INSET
        &&& label_is(status, status_text(kind), LabelSize::XSmall, Color::Muted)
        &&& trailing_icon == IconName::Plus
        &&& trailing_icon_size == IconSize::XSmall
    }

    pub open spec fn lays_out(self, r: PillLayout) -> bool {
        &&& self.lays_out_shell(r)
        &&& match self {
            ContextPill::Added { .. } => self.lays_out_added(r),
            ContextPill::Suggested { .. } => self.lays_out_suggested(r),
        }
    }

    /// Lays the pill out. Both variants share a shell around the icon; an
    /// attached pill then shows its name region and, with a remove listener,
    /// a remove button; a suggested pill shows its name, a status and a "+".
    pub fn render(&self) -> (r: PillLayout)
        ensures
            self.lays_out(r),
    {
        let focused_border = Shade { tone: ThemeTone::BorderFocused, half_opacity: false };
        let id = self.id();
        let icon = self.icon();
        match self {
            ContextPill::Added { context, dupe_name, focused, on_click, on_remove } => {
                let parent = match &context.parent {
                    Some(parent_name) => if *dupe_name {
                        Some(
                            Label {
                                text: parent_name.clone(),
                                size: LabelSize::XSmall,
                                color: Color::Muted,
                                truncate: false,
                            },
                        )
                    } else {
                        None
                    },
                    None => None,
                };
                let tooltip = match &context.tooltip {
                    Some(text) => Some(Tooltip::Text(text.clone())),
                    None => None,
                };
                let name_region = NameRegion {
                    id: ElementId::Name(String::from_str("context-data")),
                    name: Label {
                        text: context.name.clone(),
                        size: LabelSize::Small,
                        color: Color::Default,
                        truncate: true,
                    },
                    name_max_width: NAME_MAX_WIDTH,
                    parent,
                    tooltip,
                };
                let remove_button = match on_remove {
                    Some(_) => Some(
                        RemoveButton {
                            id: ElementId::NamedInteger(String::from_str("remove"), context.id.0),
                            icon: IconName::Close,
                            icon_size: IconSize::XSmall,
                            square: true,
                            tooltip: Tooltip::Text(String::from_str("Remove Context")),
                        },
                    ),
                    None => None,
                };
                let padding_right = if on_remove.is_some() {
                    PADDING_RIGHT_TIGHT
                } else {
                    PADDING_RIGHT
                };
                PillLayout {
                    id,
                    icon,
                    icon_size: IconSize::XSmall,
                    icon_color: Color::Muted,
                    padding_left: PADDING_LEFT,
                    padding_right,
                    padding_bottom: PADDING_BOTTOM,
                    background: Some(
                        Shade { tone: ThemeTone::ElementBackground, half_opacity: false },
                    ),
                    hover_background: None,
                    border: if *focused {
                        focused_border
                    } else {
                        Shade { tone: ThemeTone::Border, half_opacity: true }
                    },
                    pointer_cursor: false,
                    tooltip: None,
                    clickable: on_click.is_some(),
                    body: PillBody::Added { name_region, remove_button },
                }
            },
            ContextPill::Suggested { name, kind, focused, on_click, .. } => {
                let status = match kind {
                    ContextKind::File => String::from_str("Active Tab"),
                    ContextKind::Thread
                    | ContextKind::Directory
                    | ContextKind::FetchedUrl
                    | ContextKind::Symbol => String::from_str("Active"),
                };
                PillLayout {
                    id,
                    icon,
                    icon_size: IconSize::XSmall,
                    icon_color: Color::Muted,
                    padding_left: PADDING_LEFT,
                    padding_right: PADDING_RIGHT,
                    padding_bottom: PADDING_BOTTOM,
                    background: None,
                    hover_background: Some(
                        Shade { tone: ThemeTone::ElementHover, half_opacity: true },
                    ),
                    border: if *focused {
                        focused_border
                    } else {
                        Shade { tone: ThemeTone::BorderVariant, half_opacity: true }
                    },
                    pointer_cursor: true,
                    tooltip: Some(
                        Tooltip::WithMeta {
                            title: String::from_str("Suggested Context"),
                            secondary: None,
                            meta: String::from_str("Click to add it"),
                        },
                    ),
                    clickable: on_click.is_some(),
                    body: PillBody::Suggested {
                        name: Label {
                            text: name.clone(),
                            size: LabelSize::Small,
                            color: Color::Muted,
                            truncate: true,
                        },
                        name_max_width: NAME_MAX_WIDTH,
                        name_inset: SUGGESTED_NAME_INSET,
                        status: Label {
                            text: status,
                            size: LabelSize::XSmall,
                            color: Color::Muted,
                            truncate: false,
                        },
                        trailing_icon: IconName::Plus,
                        trailing_icon_size: IconSize::XSmall,
                    },
                }
            },
        }
    }

    /// Which listener a click on `target` reaches, if any.
    pub fn route_click(&self, target: ClickTarget) -> (r: Option<ListenerSlot>)
        ensures
            r == self.spec_route(target),
    {
        match target {
            ClickTarget::RemoveButton => match self {
                ContextPill::Added { on_remove: Some(_), .. } => Some(ListenerSlot::Remove),
                _ => None,
            },
            ClickTarget::Pill => match self {
                ContextPill::Added { on_click: Some(_), .. } => Some(ListenerSlot::Click),
                ContextPill::Suggested { on_click: Some(_), .. } => Some(ListenerSlot::Click),
                _ => None,
            },
        }
    }

    /// The listener held in `slot`, if one is set.
    pub fn listener(&self, slot: ListenerSlot) -> (r: Option<&L>)
        ensures
            r is Some <==> self.spec_listener(slot) is Some,
            r matches Some(l) ==> self.spec_listener(slot) == Some(*l),
    {
        match slot {
            ListenerSlot::Click => match self {
                ContextPill::Added { on_click, .. } => on_click.as_ref(),
                ContextPill::Suggested { on_click, .. } => on_click.as_ref(),
            },
            ListenerSlot::Remove => match self {
                ContextPill::Added { on_remove, .. } => on_remove.as_ref(),
                ContextPill::Suggested { .. } => None,
            },
        }
    }
}

} // verus!
