//! Redraw notifications as the editor groups them.
//!
//! The editor sends the events of one kind together: a group names the kind
//! once and lists the payloads. The payloads of a group apply in the order
//! listed, and the groups in the order sent. [`ungroup`] lays a
//! notification out as the one sequence of events that this order gives.

use crate::event::{
    CmdlineBlockAppend, CmdlineBlockShow, CmdlinePos, CmdlineShow, CmdlineSpecialChar,
    DefaultColorsSet, GridCursorGoto, GridResize, GridScroll, HlAttrDefine, HlGroupSet,
    ModeChange, ModeInfoSet, MsgSetPos, Notify, OptionSet, PopupmenuShow, RedrawEvent,
    TablineUpdate, WildmenuShow, WindowExternalPos, WindowFloatPos, WindowPos,
};
use crate::grid::GridLineSegment;
use vstd::prelude::*;

verus! {

/// The events of one kind that a redraw notification holds together.
#[derive(Clone, Debug, PartialEq, Eq)]
pub enum RedrawGroup {
    SetTitle(Vec<String>),
    GridLine(Vec<GridLineSegment>),
    GridCursorGoto(Vec<GridCursorGoto>),
    GridResize(Vec<GridResize>),
    GridClear(Vec<i64>),
    GridDestroy(Vec<i64>),
    GridScroll(Vec<GridScroll>),
    DefaultColorsSet(Vec<DefaultColorsSet>),
    HlAttrDefine(Vec<HlAttrDefine>),
    HlGroupSet(Vec<HlGroupSet>),
    OptionSet(Vec<OptionSet>),
    ModeInfoSet(Vec<ModeInfoSet>),
    ModeChange(Vec<ModeChange>),
    SetBusy(bool),
    Flush,
    PopupmenuShow(Vec<PopupmenuShow>),
    PopupmenuHide,
    PopupmenuSelect(Vec<i64>),
    TablineUpdate(Vec<TablineUpdate>),
    CmdlineShow(Vec<CmdlineShow>),
    CmdlineHide,
    CmdlinePos(Vec<CmdlinePos>),
    CmdlineSpecialChar(Vec<CmdlineSpecialChar>),
    CmdlineBlockShow(Vec<CmdlineBlockShow>),
    CmdlineBlockAppend(Vec<CmdlineBlockAppend>),
    CmdlineBlockHide,
    WildmenuShow(Vec<WildmenuShow>),
    WildmenuHide,
    WildmenuSelect(Vec<i64>),
    WindowPos(Vec<WindowPos>),
    WindowFloatPos(Vec<WindowFloatPos>),
    WindowExternalPos(Vec<WindowExternalPos>),
    WindowHide(Vec<i64>),
    WindowClose(Vec<i64>),
    MsgSetPos(Vec<MsgSetPos>),
    Ignored(String),
    Unknown(String),
}

impl RedrawGroup {
    /// The events of the group, one for each payload, in the order listed.
    /// A kind that carries no list is one event.
    pub open spec fn events(self) -> Seq<RedrawEvent> {
        match self {
            RedrawGroup::SetTitle(list) => list@.map_values(|e: String| RedrawEvent::SetTitle(e)),
            RedrawGroup::GridLine(list) => list@.map_values(|e: GridLineSegment| RedrawEvent::GridLine(e)),
            RedrawGroup::GridCursorGoto(list) => list@.map_values(|e: GridCursorGoto| RedrawEvent::GridCursorGoto(e)),
            RedrawGroup::GridResize(list) => list@.map_values(|e: GridResize| RedrawEvent::GridResize(e)),
            RedrawGroup::GridClear(list) => list@.map_values(|e: i64| RedrawEvent::GridClear(e)),
            RedrawGroup::GridDestroy(list) => list@.map_values(|e: i64| RedrawEvent::GridDestroy(e)),
            RedrawGroup::GridScroll(list) => list@.map_values(|e: GridScroll| RedrawEvent::GridScroll(e)),
            RedrawGroup::DefaultColorsSet(list) => list@.map_values(|e: DefaultColorsSet| RedrawEvent::DefaultColorsSet(e)),
            RedrawGroup::HlAttrDefine(list) => list@.map_values(|e: HlAttrDefine| RedrawEvent::HlAttrDefine(e)),
            RedrawGroup::HlGroupSet(list) => list@.map_values(|e: HlGroupSet| RedrawEvent::HlGroupSet(e)),
            RedrawGroup::OptionSet(list) => list@.map_values(|e: OptionSet| RedrawEvent::OptionSet(e)),
            RedrawGroup::ModeInfoSet(list) => list@.map_values(|e: ModeInfoSet| RedrawEvent::ModeInfoSet(e)),
            RedrawGroup::ModeChange(list) => list@.map_values(|e: ModeChange| RedrawEvent::ModeChange(e)),
            RedrawGroup::SetBusy(e) => seq![RedrawEvent::SetBusy(e)],
            RedrawGroup::Flush => seq![RedrawEvent::Flush],
            RedrawGroup::PopupmenuShow(list) => list@.map_values(|e: PopupmenuShow| RedrawEvent::PopupmenuShow(e)),
            RedrawGroup::PopupmenuHide => seq![RedrawEvent::PopupmenuHide],
            RedrawGroup::PopupmenuSelect(list) => list@.map_values(|e: i64| RedrawEvent::PopupmenuSelect(e)),
            RedrawGroup::TablineUpdate(list) => list@.map_values(|e: TablineUpdate| RedrawEvent::TablineUpdate(e)),
            RedrawGroup::CmdlineShow(list) => list@.map_values(|e: CmdlineShow| RedrawEvent::CmdlineShow(e)),
            RedrawGroup::CmdlineHide => seq![RedrawEvent::CmdlineHide],
            RedrawGroup::CmdlinePos(list) => list@.map_values(|e: CmdlinePos| RedrawEvent::CmdlinePos(e)),
            RedrawGroup::CmdlineSpecialChar(list) => list@.map_values(|e: CmdlineSpecialChar| RedrawEvent::CmdlineSpecialChar(e)),
            RedrawGroup::CmdlineBlockShow(list) => list@.map_values(|e: CmdlineBlockShow| RedrawEvent::CmdlineBlockShow(e)),
            RedrawGroup::CmdlineBlockAppend(list) => list@.map_values(|e: CmdlineBlockAppend| RedrawEvent::CmdlineBlockAppend(e)),
            RedrawGroup::CmdlineBlockHide => seq![RedrawEvent::CmdlineBlockHide],
            RedrawGroup::WildmenuShow(list) => list@.map_values(|e: WildmenuShow| RedrawEvent::WildmenuShow(e)),
            RedrawGroup::WildmenuHide => seq![RedrawEvent::WildmenuHide],
            RedrawGroup::WildmenuSelect(list) => list@.map_values(|e: i64| RedrawEvent::WildmenuSelect(e)),
            RedrawGroup::WindowPos(list) => list@.map_values(|e: WindowPos| RedrawEvent::WindowPos(e)),
            RedrawGroup::WindowFloatPos(list) => list@.map_values(|e: WindowFloatPos| RedrawEvent::WindowFloatPos(e)),
            RedrawGroup::WindowExternalPos(list) => list@.map_values(|e: WindowExternalPos| RedrawEvent::WindowExternalPos(e)),
            RedrawGroup::WindowHide(list) => list@.map_values(|e: i64| RedrawEvent::WindowHide(e)),
            RedrawGroup::WindowClose(list) => list@.map_values(|e: i64| RedrawEvent::WindowClose(e)),
            RedrawGroup::MsgSetPos(list) => list@.map_values(|e: MsgSetPos| RedrawEvent::MsgSetPos(e)),
            RedrawGroup::Ignored(e) => seq![RedrawEvent::Ignored(e)],
            RedrawGroup::Unknown(e) => seq![RedrawEvent::Unknown(e)],
        }
    }
}

/// The events of all the groups: those of the first group, then those of
/// the second, and so on.
pub open spec fn ungrouped(groups: Seq<RedrawGroup>) -> Seq<RedrawEvent>
    decreases groups.len(),
{
    if groups.len() == 0 {
        Seq::empty()
    } else {
        ungrouped(groups.drop_last()) + groups.last().events()
    }
}

/// Appends to `out` what `wrap` makes of each item, in the order of the
/// items.
fn push_each<T, F: Fn(T) -> RedrawEvent>(
    items: Vec<T>,
    wrap: F,
    Ghost(made): Ghost<spec_fn(T) -> RedrawEvent>,
    out: &mut Vec<RedrawEvent>,
)
    requires
        forall|t: T| wrap.requires((t,)),
        forall|t: T, r: RedrawEvent| wrap.ensures((t,), r) ==> r == made(t),
    ensures
        final(out)@ == old(out)@ + items@.map_values(made),
{
    let ghost all = items@;
    for item in it: items
        invariant
            it.seq() == all,
            forall|t: T| wrap.requires((t,)),
            forall|t: T, r: RedrawEvent| wrap.ensures((t,), r) ==> r == made(t),
            out@ == old(out)@ + all.take(it.index()).map_values(made),
    {
        let event = wrap(item);
        out.push(event);
        assert(out@ =~= old(out)@ + all.take(it.index() + 1).map_values(made));
    }
    assert(all.take(all.len() as int) =~= all);
}

/// Appends the events of one group to `out`.
fn push_group(group: RedrawGroup, out: &mut Vec<RedrawEvent>)
    ensures
        final(out)@ == old(out)@ + group.events(),
{
    match group {
        RedrawGroup::SetTitle(list) => {
            let wrap = |e: String| -> (r: RedrawEvent)
                ensures
                    r == RedrawEvent::SetTitle(e),
                { RedrawEvent::SetTitle(e) };
            push_each(list, wrap, Ghost(|e: String| RedrawEvent::SetTitle(e)), out);
        },
        RedrawGroup::GridLine(list) => {
            let wrap = |e: GridLineSegment| -> (r: RedrawEvent)
                ensures
                    r == RedrawEvent::GridLine(e),
                { RedrawEvent::GridLine(e) };
            push_each(list, wrap, Ghost(|e: GridLineSegment| RedrawEvent::GridLine(e)), out);
        },
        RedrawGroup::GridCursorGoto(list) => {
            let wrap = |e: GridCursorGoto| -> (r: RedrawEvent)
                ensures
                    r == RedrawEvent::GridCursorGoto(e),
                { RedrawEvent::GridCursorGoto(e) };
            push_each(list, wrap, Ghost(|e: GridCursorGoto| RedrawEvent::GridCursorGoto(e)), out);
        },
        RedrawGroup::GridResize(list) => {
            let wrap = |e: GridResize| -> (r: RedrawEvent)
                ensures
                    r == RedrawEvent::GridResize(e),
                { RedrawEvent::GridResize(e) };
            push_each(list, wrap, Ghost(|e: GridResize| RedrawEvent::GridResize(e)), out);
        },
        RedrawGroup::GridClear(list) => {
            let wrap = |e: i64| -> (r: RedrawEvent)
                ensures
                    r == RedrawEvent::GridClear(e),
                { RedrawEvent::GridClear(e) };
            push_each(list, wrap, Ghost(|e: i64| RedrawEvent::GridClear(e)), out);
        },
        RedrawGroup::GridDestroy(list) => {
            let wrap = |e: i64| -> (r: RedrawEvent)
                ensures
                    r == RedrawEvent::GridDestroy(e),
                { RedrawEvent::GridDestroy(e) };
            push_each(list, wrap, Ghost(|e: i64| RedrawEvent::GridDestroy(e)), out);
        },
        RedrawGroup::GridScroll(list) => {
            let wrap = |e: GridScroll| -> (r: RedrawEvent)
                ensures
                    r == RedrawEvent::GridScroll(e),
                { RedrawEvent::GridScroll(e) };
            push_each(list, wrap, Ghost(|e: GridScroll| RedrawEvent::GridScroll(e)), out);
        },
        RedrawGroup::DefaultColorsSet(list) => {
            let wrap = |e: DefaultColorsSet| -> (r: RedrawEvent)
                ensures
                    r == RedrawEvent::DefaultColorsSet(e),
                { RedrawEvent::DefaultColorsSet(e) };
            push_each(list, wrap, Ghost(|e: DefaultColorsSet| RedrawEvent::DefaultColorsSet(e)), out);
        },
        RedrawGroup::HlAttrDefine(list) => {
            let wrap = |e: HlAttrDefine| -> (r: RedrawEvent)
                ensures
                    r == RedrawEvent::HlAttrDefine(e),
                { RedrawEvent::HlAttrDefine(e) };
            push_each(list, wrap, Ghost(|e: HlAttrDefine| RedrawEvent::HlAttrDefine(e)), out);
        },
        RedrawGroup::HlGroupSet(list) => {
            let wrap = |e: HlGroupSet| -> (r: RedrawEvent)
                ensures
                    r == RedrawEvent::HlGroupSet(e),
                { RedrawEvent::HlGroupSet(e) };
            push_each(list, wrap, Ghost(|e: HlGroupSet| RedrawEvent::HlGroupSet(e)), out);
        },
        RedrawGroup::OptionSet(list) => {
            let wrap = |e: OptionSet| -> (r: RedrawEvent)
                ensures
                    r == RedrawEvent::OptionSet(e),
                { RedrawEvent::OptionSet(e) };
            push_each(list, wrap, Ghost(|e: OptionSet| RedrawEvent::OptionSet(e)), out);
        },
        RedrawGroup::ModeInfoSet(list) => {
            let wrap = |e: ModeInfoSet| -> (r: RedrawEvent)
                ensures
                    r == RedrawEvent::ModeInfoSet(e),
                { RedrawEvent::ModeInfoSet(e) };
            push_each(list, wrap, Ghost(|e: ModeInfoSet| RedrawEvent::ModeInfoSet(e)), out);
        },
        RedrawGroup::ModeChange(list) => {
            let wrap = |e: ModeChange| -> (r: RedrawEvent)
                ensures
                    r == RedrawEvent::ModeChange(e),
                { RedrawEvent::ModeChange(e) };
            push_each(list, wrap, Ghost(|e: ModeChange| RedrawEvent::ModeChange(e)), out);
        },
        RedrawGroup::SetBusy(e) => {
            out.push(RedrawEvent::SetBusy(e));
        },
        RedrawGroup::Flush => {
            out.push(RedrawEvent::Flush);
        },
        RedrawGroup::PopupmenuShow(list) => {
            let wrap = |e: PopupmenuShow| -> (r: RedrawEvent)
                ensures
                    r == RedrawEvent::PopupmenuShow(e),
                { RedrawEvent::PopupmenuShow(e) };
            push_each(list, wrap, Ghost(|e: PopupmenuShow| RedrawEvent::PopupmenuShow(e)), out);
        },
        RedrawGroup::PopupmenuHide => {
            out.push(RedrawEvent::PopupmenuHide);
        },
        RedrawGroup::PopupmenuSelect(list) => {
            let wrap = |e: i64| -> (r: RedrawEvent)
                ensures
                    r == RedrawEvent::PopupmenuSelect(e),
                { RedrawEvent::PopupmenuSelect(e) };
            push_each(list, wrap, Ghost(|e: i64| RedrawEvent::PopupmenuSelect(e)), out);
        },
        RedrawGroup::TablineUpdate(list) => {
            let wrap = |e: TablineUpdate| -> (r: RedrawEvent)
                ensures
                    r == RedrawEvent::TablineUpdate(e),
                { RedrawEvent::TablineUpdate(e) };
            push_each(list, wrap, Ghost(|e: TablineUpdate| RedrawEvent::TablineUpdate(e)), out);
        },
        RedrawGroup::CmdlineShow(list) => {
            let wrap = |e: CmdlineShow| -> (r: RedrawEvent)
                ensures
                    r == RedrawEvent::CmdlineShow(e),
                { RedrawEvent::CmdlineShow(e) };
            push_each(list, wrap, Ghost(|e: CmdlineShow| RedrawEvent::CmdlineShow(e)), out);
        },
        RedrawGroup::CmdlineHide => {
            out.push(RedrawEvent::CmdlineHide);
        },
        RedrawGroup::CmdlinePos(list) => {
            let wrap = |e: CmdlinePos| -> (r: RedrawEvent)
                ensures
                    r == RedrawEvent::CmdlinePos(e),
                { RedrawEvent::CmdlinePos(e) };
            push_each(list, wrap, Ghost(|e: CmdlinePos| RedrawEvent::CmdlinePos(e)), out);
        },
        RedrawGroup::CmdlineSpecialChar(list) => {
            let wrap = |e: CmdlineSpecialChar| -> (r: RedrawEvent)
                ensures
                    r == RedrawEvent::CmdlineSpecialChar(e),
                { RedrawEvent::CmdlineSpecialChar(e) };
            push_each(list, wrap, Ghost(|e: CmdlineSpecialChar| RedrawEvent::CmdlineSpecialChar(e)), out);
        },
        RedrawGroup::CmdlineBlockShow(list) => {
            let wrap = |e: CmdlineBlockShow| -> (r: RedrawEvent)
                ensures
                    r == RedrawEvent::CmdlineBlockShow(e),
                { RedrawEvent::CmdlineBlockShow(e) };
            push_each(list, wrap, Ghost(|e: CmdlineBlockShow| RedrawEvent::CmdlineBlockShow(e)), out);
        },
        RedrawGroup::CmdlineBlockAppend(list) => {
            let wrap = |e: CmdlineBlockAppend| -> (r: RedrawEvent)
                ensures
                    r == RedrawEvent::CmdlineBlockAppend(e),
                { RedrawEvent::CmdlineBlockAppend(e) };
            push_each(list, wrap, Ghost(|e: CmdlineBlockAppend| RedrawEvent::CmdlineBlockAppend(e)), out);
        },
        RedrawGroup::CmdlineBlockHide => {
            out.push(RedrawEvent::CmdlineBlockHide);
        },
        RedrawGroup::WildmenuShow(list) => {
            let wrap = |e: WildmenuShow| -> (r: RedrawEvent)
                ensures
                    r == RedrawEvent::WildmenuShow(e),
                { RedrawEvent::WildmenuShow(e) };
            push_each(list, wrap, Ghost(|e: WildmenuShow| RedrawEvent::WildmenuShow(e)), out);
        },
        RedrawGroup::WildmenuHide => {
            out.push(RedrawEvent::WildmenuHide);
        },
        RedrawGroup::WildmenuSelect(list) => {
            let wrap = |e: i64| -> (r: RedrawEvent)
                ensures
                    r == RedrawEvent::WildmenuSelect(e),
                { RedrawEvent::WildmenuSelect(e) };
            push_each(list, wrap, Ghost(|e: i64| RedrawEvent::WildmenuSelect(e)), out);
        },
        RedrawGroup::WindowPos(list) => {
            let wrap = |e: WindowPos| -> (r: RedrawEvent)
                ensures
                    r == RedrawEvent::WindowPos(e),
                { RedrawEvent::WindowPos(e) };
            push_each(list, wrap, Ghost(|e: WindowPos| RedrawEvent::WindowPos(e)), out);
        },
        RedrawGroup::WindowFloatPos(list) => {
            let wrap = |e: WindowFloatPos| -> (r: RedrawEvent)
                ensures
                    r == RedrawEvent::WindowFloatPos(e),
                { RedrawEvent::WindowFloatPos(e) };
            push_each(list, wrap, Ghost(|e: WindowFloatPos| RedrawEvent::WindowFloatPos(e)), out);
        },
        RedrawGroup::WindowExternalPos(list) => {
            let wrap = |e: WindowExternalPos| -> (r: RedrawEvent)
                ensures
                    r == RedrawEvent::WindowExternalPos(e),
                { RedrawEvent::WindowExternalPos(e) };
            push_each(list, wrap, Ghost(|e: WindowExternalPos| RedrawEvent::WindowExternalPos(e)), out);
        },
        RedrawGroup::WindowHide(list) => {
            let wrap = |e: i64| -> (r: RedrawEvent)
                ensures
                    r == RedrawEvent::WindowHide(e),
                { RedrawEvent::WindowHide(e) };
            push_each(list, wrap, Ghost(|e: i64| RedrawEvent::WindowHide(e)), out);
        },
        RedrawGroup::WindowClose(list) => {
            let wrap = |e: i64| -> (r: RedrawEvent)
                ensures
                    r == RedrawEvent::WindowClose(e),
                { RedrawEvent::WindowClose(e) };
            push_each(list, wrap, Ghost(|e: i64| RedrawEvent::WindowClose(e)), out);
        },
        RedrawGroup::MsgSetPos(list) => {
            let wrap = |e: MsgSetPos| -> (r: RedrawEvent)
                ensures
                    r == RedrawEvent::MsgSetPos(e),
                { RedrawEvent::MsgSetPos(e) };
            push_each(list, wrap, Ghost(|e: MsgSetPos| RedrawEvent::MsgSetPos(e)), out);
        },
        RedrawGroup::Ignored(e) => {
            out.push(RedrawEvent::Ignored(e));
        },
        RedrawGroup::Unknown(e) => {
            out.push(RedrawEvent::Unknown(e));
        },
    }
    assert(out@ =~= old(out)@ + group.events());
}

/// Lays the groups of a notification out as one sequence of events: the
/// payloads of each group in the order listed, the groups in the order
/// sent.
pub fn ungroup(groups: Vec<RedrawGroup>) -> (events: Vec<RedrawEvent>)
    ensures
        events@ == ungrouped(groups@),
{
    let ghost all = groups@;
    let mut events: Vec<RedrawEvent> = Vec::new();
    assert(all.take(0) =~= Seq::<RedrawGroup>::empty());
    for group in it: groups
        invariant
            it.seq() == all,
            events@ == ungrouped(all.take(it.index())),
    {
        assert(all.take(it.index() + 1).drop_last() =~= all.take(it.index()));
        assert(all.take(it.index() + 1).last() == group);
        push_group(group, &mut events);
    }
    assert(all.take(all.len() as int) =~= all);
    events
}

impl Notify {
    /// The notification that carries the events of the groups.
    pub fn redraw(groups: Vec<RedrawGroup>) -> (notify: Notify)
        ensures
            notify matches Notify::RedrawEvent(events) && events@ == ungrouped(groups@),
    {
        Notify::RedrawEvent(ungroup(groups))
    }
}

/// The events of one group after another are the events of the first
/// groups followed by those of the rest: no event changes its place by the
/// way the editor cuts a notification into groups.
pub proof fn lemma_ungrouped_in_order(first: Seq<RedrawGroup>, rest: Seq<RedrawGroup>)
    ensures
        ungrouped(first + rest) == ungrouped(first) + ungrouped(rest),
    decreases rest.len(),
{
    if rest.len() == 0 {
        assert(first + rest =~= first);
        assert(ungrouped(first) + ungrouped(rest) =~= ungrouped(first));
    } else {
        let all = first + rest;
        assert(all.drop_last() =~= first + rest.drop_last());
        assert(all.last() == rest.last());
        lemma_ungrouped_in_order(first, rest.drop_last());
        assert(ungrouped(first) + ungrouped(rest.drop_last()) + rest.last().events() =~= ungrouped(
            first,
        ) + (ungrouped(rest.drop_last()) + rest.last().events()));
    }
}

} // verus!
