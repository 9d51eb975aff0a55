use std::cell::Cell;
use std::rc::Rc;

use context_pill::context::{ContextId, ContextKind, ContextSnapshot};
use context_pill::element::{
    Color, ElementId, Icon, IconName, IconSize, LabelSize, Shade, ThemeTone, Tooltip,
};
use context_pill::layout::{
    ClickTarget, ListenerSlot, PillBody, PillLayout, NAME_MAX_WIDTH, PADDING_RIGHT,
    PADDING_RIGHT_TIGHT,
};
use context_pill::pill::ContextPill;

type Listener = Rc<dyn Fn()>;

fn snapshot(id: usize, name: &str, parent: Option<&str>) -> ContextSnapshot {
    ContextSnapshot {
        id: ContextId(id),
        name: name.to_string(),
        parent: parent.map(|p| p.to_string()),
        icon_path: None,
        kind: ContextKind::File,
        tooltip: None,
    }
}

fn counter() -> (Rc<Cell<u32>>, Listener) {
    let count = Rc::new(Cell::new(0));
    let seen = count.clone();
    (count, Rc::new(move || seen.set(seen.get() + 1)))
}

fn click(pill: &ContextPill<Listener>, target: ClickTarget) {
    if let Some(slot) = pill.route_click(target) {
        if let Some(listener) = pill.listener(slot) {
            listener();
        }
    }
}

fn added_body(layout: &PillLayout) -> (&context_pill::layout::NameRegion, bool) {
    match &layout.body {
        PillBody::Added { name_region, remove_button } => (name_region, remove_button.is_some()),
        PillBody::Suggested { .. } => panic!("expected an attached pill's layout"),
    }
}

fn status_of(layout: &PillLayout) -> String {
    match &layout.body {
        PillBody::Suggested { status, .. } => status.text.clone(),
        PillBody::Added { .. } => panic!("expected a suggested pill's layout"),
    }
}

#[test]
fn added_pill_without_dupe_or_remove() {
    let pill: ContextPill<Listener> =
        ContextPill::added(snapshot(1, "a.rs", None), false, false, None);
    let layout = pill.render();
    let (region, has_remove) = added_body(&layout);
    assert_eq!(region.name.text, "a.rs");
    assert!(region.parent.is_none());
    assert!(!has_remove);
    assert_eq!(layout.padding_right, PADDING_RIGHT);
    assert_eq!(layout.border, Shade { tone: ThemeTone::Border, half_opacity: true });
    assert!(!layout.clickable);
}

#[test]
fn added_pill_with_dupe_name_shows_parent() {
    let pill: ContextPill<Listener> =
        ContextPill::added(snapshot(1, "a.rs", Some("src")), true, false, None);
    let layout = pill.render();
    let (region, _) = added_body(&layout);
    assert_eq!(region.name.text, "a.rs");
    let parent = region.parent.as_ref().expect("parent label");
    assert_eq!(parent.text, "src");
    assert_eq!(parent.size, LabelSize::XSmall);
    assert_eq!(parent.color, Color::Muted);
}

#[test]
fn parent_hidden_unless_dupe_and_present() {
    for (dupe, parent, shown) in [
        (false, None, false),
        (false, Some("src"), false),
        (true, None, false),
        (true, Some("src"), true),
    ] {
        let pill: ContextPill<Listener> =
            ContextPill::added(snapshot(3, "mod.rs", parent), dupe, false, None);
        let layout = pill.render();
        assert_eq!(added_body(&layout).0.parent.is_some(), shown);
    }
}

#[test]
fn suggested_file_is_active_tab() {
    let pill: ContextPill<Listener> =
        ContextPill::suggested("b.rs".to_string(), None, ContextKind::File, true);
    let layout = pill.render();
    assert_eq!(layout.border, Shade { tone: ThemeTone::BorderFocused, half_opacity: false });
    assert_eq!(status_of(&layout), "Active Tab");
    match &layout.body {
        PillBody::Suggested { name, trailing_icon, trailing_icon_size, name_max_width, .. } => {
            assert_eq!(name.text, "b.rs");
            assert_eq!(*trailing_icon, IconName::Plus);
            assert_eq!(*trailing_icon_size, IconSize::XSmall);
            assert_eq!(*name_max_width, NAME_MAX_WIDTH);
        },
        PillBody::Added { .. } => panic!("expected a suggested pill's layout"),
    }
    assert!(layout.pointer_cursor);
    match layout.tooltip {
        Some(Tooltip::WithMeta { title, secondary, meta }) => {
            assert_eq!(title, "Suggested Context");
            assert!(secondary.is_none());
            assert_eq!(meta, "Click to add it");
        },
        _ => panic!("expected a tooltip with a title and a note"),
    }
}

#[test]
fn suggested_thread_is_active() {
    let pill: ContextPill<Listener> =
        ContextPill::suggested("thread-1".to_string(), None, ContextKind::Thread, false);
    let layout = pill.render();
    assert_eq!(status_of(&layout), "Active");
    assert_eq!(layout.border, Shade { tone: ThemeTone::BorderVariant, half_opacity: true });
}

#[test]
fn status_text_for_every_kind() {
    for (kind, text) in [
        (ContextKind::File, "Active Tab"),
        (ContextKind::Thread, "Active"),
        (ContextKind::Directory, "Active"),
        (ContextKind::FetchedUrl, "Active"),
        (ContextKind::Symbol, "Active"),
    ] {
        let pill: ContextPill<Listener> = ContextPill::suggested("x".to_string(), None, kind, false);
        assert_eq!(status_of(&pill.render()), text);
    }
}

fn id_of(pill: &ContextPill<Listener>) -> (String, Option<usize>) {
    match pill.id() {
        ElementId::Name(s) => (s, None),
        ElementId::NamedInteger(s, n) => (s, Some(n)),
    }
}

#[test]
fn added_id_follows_snapshot_id() {
    let a: ContextPill<Listener> = ContextPill::added(snapshot(7, "a.rs", None), false, false, None);
    let b: ContextPill<Listener> =
        ContextPill::added(snapshot(7, "other.rs", Some("lib")), true, true, None);
    let c: ContextPill<Listener> = ContextPill::added(snapshot(8, "a.rs", None), false, false, None);
    assert_eq!(id_of(&a), ("context-pill".to_string(), Some(7)));
    assert_eq!(id_of(&a), id_of(&a));
    assert_eq!(id_of(&a), id_of(&b));
    assert_ne!(id_of(&a), id_of(&c));
}

#[test]
fn suggested_id_is_shared() {
    let a: ContextPill<Listener> =
        ContextPill::suggested("b.rs".to_string(), None, ContextKind::File, true);
    let b: ContextPill<Listener> = ContextPill::suggested(
        "thread-1".to_string(),
        Some("icons/t.svg".to_string()),
        ContextKind::Thread,
        false,
    );
    assert_eq!(id_of(&a), ("suggested-context-pill".to_string(), None));
    assert_eq!(id_of(&a), id_of(&b));
}

fn icon_of(pill: &ContextPill<Listener>) -> (Option<IconName>, Option<String>) {
    match pill.icon() {
        Icon::Named(n) => (Some(n), None),
        Icon::Path(p) => (None, Some(p)),
    }
}

#[test]
fn icon_path_overrides_kind() {
    let mut snap = snapshot(2, "page", None);
    snap.kind = ContextKind::FetchedUrl;
    let plain: ContextPill<Listener> = ContextPill::added(snap.clone(), false, false, None);
    assert_eq!(icon_of(&plain), (Some(IconName::Globe), None));
    snap.icon_path = Some("icons/rust.svg".to_string());
    let custom: ContextPill<Listener> = ContextPill::added(snap, false, false, None);
    assert_eq!(icon_of(&custom), (None, Some("icons/rust.svg".to_string())));
    let suggested: ContextPill<Listener> = ContextPill::suggested(
        "dir".to_string(),
        Some("icons/folder.svg".to_string()),
        ContextKind::Directory,
        false,
    );
    assert_eq!(icon_of(&suggested), (None, Some("icons/folder.svg".to_string())));
    let by_kind: ContextPill<Listener> =
        ContextPill::suggested("sym".to_string(), None, ContextKind::Symbol, false);
    assert_eq!(icon_of(&by_kind), (Some(IconName::Code), None));
}

#[test]
fn kind_icons() {
    assert_eq!(ContextKind::File.icon(), IconName::File);
    assert_eq!(ContextKind::Directory.icon(), IconName::Folder);
    assert_eq!(ContextKind::Symbol.icon(), IconName::Code);
    assert_eq!(ContextKind::FetchedUrl.icon(), IconName::Globe);
    assert_eq!(ContextKind::Thread.icon(), IconName::MessageCircle);
}

#[test]
fn remove_button_present_with_listener() {
    let (_, on_remove) = counter();
    let pill = ContextPill::added(snapshot(5, "a.rs", None), false, true, Some(on_remove));
    let layout = pill.render();
    assert_eq!(layout.padding_right, PADDING_RIGHT_TIGHT);
    assert_eq!(layout.border, Shade { tone: ThemeTone::BorderFocused, half_opacity: false });
    match &layout.body {
        PillBody::Added { remove_button: Some(button), .. } => {
            match &button.id {
                ElementId::NamedInteger(name, n) => {
                    assert_eq!(name, "remove");
                    assert_eq!(*n, 5);
                },
                ElementId::Name(_) => panic!("expected a button keyed by the context id"),
            }
            assert_eq!(button.icon, IconName::Close);
            match &button.tooltip {
                Tooltip::Text(t) => assert_eq!(t, "Remove Context"),
                _ => panic!("expected a plain tooltip"),
            }
        },
        _ => panic!("expected a remove button"),
    }
}

#[test]
fn snapshot_tooltip_covers_name_region() {
    let mut snap = snapshot(4, "lib.rs", None);
    snap.tooltip = Some("crates/x/src/lib.rs".to_string());
    let pill: ContextPill<Listener> = ContextPill::added(snap, false, false, None);
    let layout = pill.render();
    match &added_body(&layout).0.tooltip {
        Some(Tooltip::Text(t)) => assert_eq!(t, "crates/x/src/lib.rs"),
        _ => panic!("expected a plain tooltip"),
    }
}

#[test]
fn remove_click_does_not_reach_click_listener() {
    let (removed, on_remove) = counter();
    let (clicked, on_click) = counter();
    let pill =
        ContextPill::added(snapshot(1, "a.rs", None), false, false, Some(on_remove)).on_click(on_click);
    assert!(pill.render().clickable);
    assert_eq!(pill.route_click(ClickTarget::RemoveButton), Some(ListenerSlot::Remove));
    click(&pill, ClickTarget::RemoveButton);
    assert_eq!((removed.get(), clicked.get()), (1, 0));
    click(&pill, ClickTarget::Pill);
    assert_eq!((removed.get(), clicked.get()), (1, 1));
}

#[test]
fn suggested_pill_without_listener_ignores_clicks() {
    let pill: ContextPill<Listener> =
        ContextPill::suggested("b.rs".to_string(), None, ContextKind::File, false);
    assert!(!pill.render().clickable);
    assert_eq!(pill.route_click(ClickTarget::Pill), None);
    assert_eq!(pill.route_click(ClickTarget::RemoveButton), None);
}

#[test]
fn second_click_listener_replaces_first() {
    let (first_count, first) = counter();
    let (second_count, second) = counter();
    let added = ContextPill::added(snapshot(1, "a.rs", None), false, false, None)
        .on_click(first.clone())
        .on_click(second.clone());
    click(&added, ClickTarget::Pill);
    let suggested = ContextPill::suggested("b.rs".to_string(), None, ContextKind::File, false)
        .on_click(first)
        .on_click(second);
    click(&suggested, ClickTarget::Pill);
    assert_eq!((first_count.get(), second_count.get()), (0, 2));
}
