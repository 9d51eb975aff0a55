//! The vocabulary of the visual tree that a pill is laid out into.
use vstd::prelude::*;

verus! {

/// Icons of the host's icon registry that pills use.
#[derive(Clone, Copy, Debug, PartialEq, Eq, Structural)]
pub enum IconName {
    File,
    Folder,
    Code,
    Globe,
    MessageCircle,
    Close,
    Plus,
}

/// Identity of an element, stable across render passes.
#[derive(Clone, Debug)]
pub enum ElementId {
    Name(String),
    NamedInteger(String, usize),
}

/// What an `ElementId` denotes.
pub enum ElementKey {
    Name(Seq<char>),
    NamedInteger(Seq<char>, usize),
}

impl View for ElementId {
    type V = ElementKey;

    open spec fn view(&self) -> ElementKey {
        match self {
            ElementId::Name(s) => ElementKey::Name(s@),
            ElementId::NamedInteger(s, n) => ElementKey::NamedInteger(s@, *n),
        }
    }
}

/// An icon, either one of the registry or an image loaded from a path.
#[derive(Clone, Debug)]
pub enum Icon {
    Named(IconName),
    Path(String),
}

/// What an `Icon` denotes.
pub enum IconSource {
    Named(IconName),
    Path(Seq<char>),
}

impl View for Icon {
    type V = IconSource;

    open spec fn view(&self) -> IconSource {
        match self {
            Icon::Named(n) => IconSource::Named(*n),
            Icon::Path(p) => IconSource::Path(p@),
        }
    }
}

#[derive(Clone, Copy, Debug, PartialEq, Eq, Structural)]
pub enum IconSize {
    XSmall,
    Small,
}

#[derive(Clone, Copy, Debug, PartialEq, Eq, Structural)]
pub enum LabelSize {
    XSmall,
    Small,
}

/// Text and icon colors.
#[derive(Clone, Copy, Debug, PartialEq, Eq, Structural)]
pub enum Color {
    Default,
    Muted,
}

/// Named color tones of the theme.
#[derive(Clone, Copy, Debug, PartialEq, Eq, Structural)]
pub enum ThemeTone {
    ElementBackground,
    ElementHover,
    Border,
    BorderFocused,
    BorderVariant,
}

/// A theme tone, at full or at half opacity.
#[derive(Clone, Copy, Debug, PartialEq, Eq, Structural)]
pub struct Shade {
    pub tone: ThemeTone,
    pub half_opacity: bool,
}

/// A line of text.
#[derive(Clone, Debug)]
pub struct Label {
    pub text: String,
    pub size: LabelSize,
    pub color: Color,
    /// Whether text that does not fit is cut short with an ellipsis.
    pub truncate: bool,
}

/// Content shown when the pointer rests on an element.
#[derive(Clone, Debug)]
pub enum Tooltip {
    /// Plain text.
    Text(String),
    /// A title, an optional second line, and a note under them.
    WithMeta { title: String, secondary: Option<String>, meta: String },
}

} // verus!
