//! Properties that relate the pill's operations to one another.
use vstd::prelude::*;

use crate::context::ContextKind;
use crate::element::IconSource;
use crate::layout::{
    ClickTarget, ListenerSlot, PillBody, PillLayout, PADDING_RIGHT, PADDING_RIGHT_TIGHT,
};
use crate::pill::ContextPill;

verus! {

/// Two attached pills have the same identity exactly when their snapshots
/// have the same id: the identity depends on that id alone, and pills of
/// distinct items never collide.
pub proof fn added_id_keyed_by_snapshot_id<L>(a: ContextPill<L>, b: ContextPill<L>)
    requires
        a is Added,
        b is Added,
    ensures
        (a.spec_id() == b.spec_id()) <==> (a->context.id == b->context.id),
{
}

/// All suggested pills share one identity, whatever their name, kind, focus
/// or listener.
pub proof fn suggested_id_is_constant<L>(a: ContextPill<L>, b: ContextPill<L>)
    requires
        a is Suggested,
        b is Suggested,
    ensures
        a.spec_id() == b.spec_id(),
{
}

/// A custom icon path, when given, decides the icon of either variant,
/// whatever the kind.
pub proof fn icon_path_takes_precedence<L>(p: ContextPill<L>)
    requires
        p.custom_icon_path() is Some,
    ensures
        p.spec_icon() == IconSource::Path(p.custom_icon_path().unwrap()@),
{
}

/// An attached pill shows its parent's name exactly when its name is shared
/// and it has a parent.
pub proof fn parent_shown_iff_dupe_with_parent<L>(p: ContextPill<L>, r: PillLayout)
    requires
        p is Added,
        p.lays_out(r),
    ensures
        r.body matches PillBody::Added { name_region, .. } && (name_region.parent is Some
            <==> (p->dupe_name && p->context.parent is Some)),
{
}

/// An attached pill has a remove button exactly when it has a remove
/// listener, and its right padding is tighter with the button than without.
pub proof fn remove_button_iff_listener<L>(p: ContextPill<L>, r: PillLayout)
    requires
        p is Added,
        p.lays_out(r),
    ensures
        r.body matches PillBody::Added { remove_button, .. } && (remove_button is Some
            <==> p->on_remove is Some),
        p->on_remove is Some ==> r.padding_right == PADDING_RIGHT_TIGHT,
        p->on_remove is None ==> r.padding_right == PADDING_RIGHT,
        PADDING_RIGHT_TIGHT < PADDING_RIGHT,
{
}

/// A suggested pill's status reads "Active Tab" for a file and "Active" for
/// every other kind.
pub proof fn suggested_status_by_kind<L>(p: ContextPill<L>, r: PillLayout)
    requires
        p is Suggested,
        p.lays_out(r),
    ensures
        r.body matches PillBody::Suggested { status, .. } && status.text@ == (if p->kind
            == ContextKind::File {
            "Active Tab"@
        } else {
            "Active"@
        }),
{
}

/// On an attached pill with both listeners, a click on the remove button
/// reaches the remove listener alone, and a click anywhere else reaches the
/// click listener alone.
pub proof fn remove_click_does_not_reach_pill<L>(p: ContextPill<L>)
    requires
        p is Added,
        p->on_remove is Some,
        p.click_listener() is Some,
    ensures
        p.spec_route(ClickTarget::RemoveButton) == Some(ListenerSlot::Remove),
        p.spec_route(ClickTarget::Pill) == Some(ListenerSlot::Click),
        p.spec_listener(ListenerSlot::Remove) == p->on_remove,
        p.spec_listener(ListenerSlot::Click) == p.click_listener(),
{
}

/// Setting the click listener twice leaves the second one, as if the first
/// had never been set.
pub proof fn click_listener_last_write_wins<L>(p: ContextPill<L>, first: L, second: L)
    ensures
        p.with_click_listener(first).with_click_listener(second) == p.with_click_listener(
            second,
        ),
        p.with_click_listener(first).with_click_listener(second).click_listener() == Some(
            second,
        ),
{
}

} // verus!
