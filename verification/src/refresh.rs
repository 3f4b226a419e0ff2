//! The UI-refresh computation: from a snapshot of the shared state (written
//! by the producer thread, read under its lock by the platform layer) to the
//! displayed title and menu.  The rendering is a pure function of the
//! snapshot, so refreshing twice with unchanged state shows the same title
//! and the same menu contents — the refresh tolerates duplicate
//! notifications.

use vstd::prelude::*;
use vstd::string::StringExecFns;
use crate::menus::CallbackBridge;
use crate::menus::Menu;
use crate::menus::MenuItem;
use crate::menus::disjoint_items;
use crate::menus::lemma_menu_owns_in_store;
use crate::registry::NativeRegistry;
use crate::status::StatusItem;

verus! {

/// What the refresh reads out of the shared state, as plain values: the
/// platform layer extracts these fields (failing loudly on a missing or
/// mistyped one, as the design demands) and hands them over.
#[derive(Debug)]
pub struct StateSnapshot {
    pub speed: String,
    pub next_station_name: String,
    pub forecast_arrival: String,
    pub train_type: String,
    pub trip_number: String,
    pub destination_name: String,
}

/// The displayed title: the speed with its unit.
pub open spec fn title_text(s: StateSnapshot) -> Seq<char> {
    s.speed@ + " km/h"@
}

/// The first menu line: the trip being ridden.
pub open spec fn trip_line(s: StateSnapshot) -> Seq<char> {
    "On "@ + s.train_type@ + " "@ + s.trip_number@ + " to "@ + s.destination_name@
}

/// The second menu line: the next stop and its forecast arrival.
pub open spec fn station_line(s: StateSnapshot) -> Seq<char> {
    "Next station: "@ + s.next_station_name@ + " at "@ + s.forecast_arrival@
}

/// The third menu line: the clickable dashboard entry.
pub open spec fn dashboard_line() -> Seq<char> {
    "Go to dashboard"@
}

/// A status item currently displays exactly what the snapshot renders to:
/// the speed title and the three menu lines, the last one clickable.
pub open spec fn displays(st: StatusItem, s: StateSnapshot) -> bool {
    &&& st.title@ == title_text(s)
    &&& st.menu.items@.len() == 3
    &&& st.menu.items[0].title@ == trip_line(s)
    &&& st.menu.items[0].callback is None
    &&& st.menu.items[0].submenu is None
    &&& st.menu.items[1].title@ == station_line(s)
    &&& st.menu.items[1].callback is None
    &&& st.menu.items[1].submenu is None
    &&& st.menu.items[2].title@ == dashboard_line()
    &&& st.menu.items[2].callback is Some
    &&& st.menu.items[2].submenu is None
}

/// Renders the title text.
pub fn render_title(s: &StateSnapshot) -> (r: String)
    ensures
        r@ == title_text(*s),
{
    let mut t = s.speed.clone();
    t.append(" km/h");
    t
}

/// Renders the trip line.
pub fn render_trip_line(s: &StateSnapshot) -> (r: String)
    ensures
        r@ == trip_line(*s),
{
    let mut t = String::from_str("On ");
    t.append(s.train_type.as_str());
    t.append(" ");
    t.append(s.trip_number.as_str());
    t.append(" to ");
    t.append(s.destination_name.as_str());
    t
}

/// Renders the next-station line.
pub fn render_station_line(s: &StateSnapshot) -> (r: String)
    ensures
        r@ == station_line(*s),
{
    let mut t = String::from_str("Next station: ");
    t.append(s.next_station_name.as_str());
    t.append(" at ");
    t.append(s.forecast_arrival.as_str());
    t
}

/// Builds the fresh menu the snapshot renders to: the trip line, the
/// next-station line, and the clickable dashboard entry.  Every handle of
/// the new tree is freshly allocated.
pub fn render_menu(reg: &mut NativeRegistry, s: &StateSnapshot) -> (m: Menu)
    ensures
        m.wf(*final(reg), 0),
        m.items@.len() == 3,
        m.items[0].title@ == trip_line(*s),
        m.items[0].callback is None,
        m.items[0].submenu is None,
        m.items[1].title@ == station_line(*s),
        m.items[1].callback is None,
        m.items[1].submenu is None,
        m.items[2].title@ == dashboard_line(),
        m.items[2].callback is Some,
        m.items[2].submenu is None,
        final(reg).spec_len() == old(reg).spec_len() + 5,
        forall|h: usize| #[trigger] m.owns(h) ==> !old(reg).has(h),
        forall|j: usize| old(reg).has(j) ==> final(reg).obj(j) == old(reg).obj(j),
    {
    let first = MenuItem::new(reg, render_trip_line(s), None, None);
    let second = MenuItem::new(reg, render_station_line(s), None, None);
    let bridge = CallbackBridge::new(reg);
    let dash_title = String::from_str("Go to dashboard");
    let third = MenuItem::new(reg, dash_title, Some(bridge), None);
    proof {
        assert forall|h: usize| #[trigger] first.owns(h) implies h == first.handle by {}
        assert forall|h: usize| #[trigger] second.owns(h) implies h == second.handle by {}
        assert forall|h: usize|
            #[trigger] third.owns(h) implies h == third.handle || h
                == third.callback->0.trampoline by {}
        assert(disjoint_items(first, second));
        assert(disjoint_items(first, third));
        assert(disjoint_items(second, first));
        assert(disjoint_items(second, third));
        assert(disjoint_items(third, first));
        assert(disjoint_items(third, second));
    }
    let mut items: Vec<MenuItem> = Vec::new();
    items.push(first);
    items.push(second);
    items.push(third);
    let m = Menu::new(reg, items);
    proof {
        assert forall|h: usize| #[trigger] m.owns(h) implies !old(reg).has(h) by {
            if h != m.handle {
                let i = choose|i: int| 0 <= i < m.items@.len() && (#[trigger] m.items[i]).owns(h);
            }
        }
    }
    m
}

/// One UI refresh: replace the displayed title and swap in a freshly built
/// menu rendered from the snapshot; the previously attached menu's tree is
/// torn down completely.  What is displayed afterwards is a function of the
/// snapshot alone.
pub fn refresh_status(status: &mut StatusItem, reg: &mut NativeRegistry, s: &StateSnapshot)
    requires
        old(status).wf(*old(reg)),
    ensures
        final(status).wf(*final(reg)),
        displays(*final(status), *s),
        final(status).slot == old(status).slot,
        final(reg).spec_len() == old(reg).spec_len() + 5,
        forall|h: usize|
            #[trigger] old(status).menu.owns(h) ==> final(reg).has(h) && final(reg).obj(
                h,
            ).retain_count == 0,
        forall|h: usize|
            old(reg).has(h) && !old(status).menu.owns(h) && h != old(status).slot
                ==> final(reg).obj(h) == old(reg).obj(h),
{
    let t = render_title(s);
    status.set_title(reg, t);
    let ghost reg1 = *reg;
    let m = render_menu(reg, s);
    proof {
        lemma_menu_owns_in_store(status.menu, reg1, 1);
        crate::menus::lemma_menu_wf_frame(status.menu, reg1, *reg, 1);
        assert(status.wf(*reg));
        assert forall|h: usize| #[trigger] m.owns(h) implies !status.menu.owns(h) by {}
        assert(!m.owns(status.slot));
        assert(m.owns(m.handle));
    }
    status.set_menu(reg, m);
    proof {
        assert forall|h: usize|
            old(reg).has(h) && !old(status).menu.owns(h) && h != old(status).slot implies reg.obj(
            h,
        ) == old(reg).obj(h) by {
            assert(reg1.has(h));
            assert(h != m.handle);
        }
    }
}

/// Law: the refresh is idempotent in what it displays.  Two status items
/// refreshed from the same snapshot — in particular, the same item refreshed
/// twice in a row with unchanged shared state — show the same title and the
/// same menu contents, line for line.
pub proof fn lemma_refresh_idempotent(a: StatusItem, b: StatusItem, s: StateSnapshot)
    requires
        displays(a, s),
        displays(b, s),
    ensures
        a.title@ == b.title@,
        a.menu.items@.len() == b.menu.items@.len(),
        forall|i: int|
            0 <= i < a.menu.items@.len() ==> #[trigger] a.menu.items[i].title@
                == b.menu.items[i].title@,
{
    assert forall|i: int|
        0 <= i < a.menu.items@.len() implies #[trigger] a.menu.items[i].title@
            == b.menu.items[i].title@ by {
        if i == 0 {
        } else if i == 1 {
        }
    }
}

} // verus!
