//! An explicit model of the native toolkit's object store.
//!
//! The toolkit hands out opaque, reference-counted objects — menus, menu
//! items, click trampolines and status-bar slots — and the lifecycle layer's
//! whole job is to keep their reference graph sound: every reference is
//! retained, children are detached before a parent is released, and nothing
//! is released while still referenced.  This module makes that store a plain
//! value, a vector of objects indexed by handle, so the lifecycle rules can
//! be stated and proved about it.  Releasing an object's last reference
//! requires that the object no longer holds references of its own: exactly
//! the child-before-parent teardown discipline the design demands.

use vstd::prelude::*;

verus! {

/// What kind of native object a handle denotes.
#[derive(Clone, Copy, PartialEq, Eq, Structural, Debug)]
pub enum ObjKind {
    /// A native menu: an ordered list of child items.
    MenuObj,
    /// A native menu item: title, optional click target, optional submenu.
    ItemObj,
    /// A click trampoline: the native-invocable object that re-enters the
    /// application callback; it counts its invocations.
    TrampolineObj,
    /// A status-bar slot with a displayed title and an attached menu.
    SlotObj,
}

/// One native object.  Fields irrelevant to an object's kind stay at their
/// defaults.
#[derive(Debug)]
pub struct NativeObj {
    pub kind: ObjKind,
    /// Outstanding references: from the owning wrapper value and from other
    /// native objects.  Zero means the object is gone.
    pub retain_count: usize,
    /// Displayed title (items and slots).
    pub title: String,
    /// Child item handles in display order (menus).
    pub children: Vec<usize>,
    /// Attached submenu handle (items).
    pub submenu: Option<usize>,
    /// Click target trampoline handle (items).
    pub target: Option<usize>,
    /// Attached menu handle (slots).
    pub attached_menu: Option<usize>,
    /// Symbol name of the displayed icon (slots).
    pub image: Option<String>,
    /// Number of times the trampoline was invoked (trampolines).
    pub clicks: usize,
}

/// The store: objects indexed by handle.  Handles are never reused; a
/// released object stays in place with a zero count.
#[derive(Debug)]
pub struct NativeRegistry {
    pub objects: Vec<NativeObj>,
}

/// `b` agrees with `a` on every field except possibly the retain count.
pub open spec fn same_except_rc(a: NativeObj, b: NativeObj) -> bool {
    b == (NativeObj { retain_count: b.retain_count, ..a })
}

/// `b` agrees with `a` on every field except possibly the children list.
pub open spec fn same_except_children(a: NativeObj, b: NativeObj) -> bool {
    b == (NativeObj { children: b.children, ..a })
}

/// `b` agrees with `a` on every field except possibly the click target.
pub open spec fn same_except_target(a: NativeObj, b: NativeObj) -> bool {
    b == (NativeObj { target: b.target, ..a })
}

/// `b` agrees with `a` on every field except possibly the submenu.
pub open spec fn same_except_submenu(a: NativeObj, b: NativeObj) -> bool {
    b == (NativeObj { submenu: b.submenu, ..a })
}

/// `b` agrees with `a` on every field except possibly the attached menu.
pub open spec fn same_except_attached(a: NativeObj, b: NativeObj) -> bool {
    b == (NativeObj { attached_menu: b.attached_menu, ..a })
}

/// `b` agrees with `a` on every field except possibly the title.
pub open spec fn same_except_title(a: NativeObj, b: NativeObj) -> bool {
    b == (NativeObj { title: b.title, ..a })
}

/// `b` agrees with `a` on every field except possibly the icon.
pub open spec fn same_except_image(a: NativeObj, b: NativeObj) -> bool {
    b == (NativeObj { image: b.image, ..a })
}

/// The object holds no references of its own: the state an object must be
/// brought into before its last reference may be dropped.
pub open spec fn refs_clear(o: NativeObj) -> bool {
    &&& o.children@.len() == 0
    &&& o.submenu is None
    &&& o.target is None
    &&& o.attached_menu is None
}

/// A freshly allocated object of the given kind and title.
pub open spec fn fresh_obj(o: NativeObj, kind: ObjKind, title: Seq<char>) -> bool {
    &&& o.kind == kind
    &&& o.retain_count == 1
    &&& o.title@ == title
    &&& refs_clear(o)
    &&& o.image is None
    &&& o.clicks == 0
}

impl NativeRegistry {
    pub open spec fn spec_len(self) -> int {
        self.objects@.len() as int
    }

    /// The handle denotes a slot of the store.
    pub open spec fn has(self, h: usize) -> bool {
        h < self.objects@.len()
    }

    pub open spec fn obj(self, h: usize) -> NativeObj {
        self.objects@[h as int]
    }

    /// The handle denotes an object that still has references.
    pub open spec fn live(self, h: usize) -> bool {
        self.has(h) && self.obj(h).retain_count > 0
    }

    /// An empty store.
    pub fn new() -> (r: NativeRegistry)
        ensures
            r.spec_len() == 0,
    {
        NativeRegistry { objects: Vec::new() }
    }

    fn alloc_obj(&mut self, kind: ObjKind, title: String) -> (h: usize)
        ensures
            final(self).spec_len() == old(self).spec_len() + 1,
            h as int == old(self).spec_len(),
            forall|j: usize| old(self).has(j) ==> final(self).obj(j) == old(self).obj(j),
            fresh_obj(final(self).obj(h), kind, title@),
    {
        let h = self.objects.len();
        self.objects.push(
            NativeObj {
                kind,
                retain_count: 1,
                title,
                children: Vec::new(),
                submenu: None,
                target: None,
                attached_menu: None,
                image: None,
                clicks: 0,
            },
        );
        h
    }

    /// Allocates a native menu object.
    pub fn alloc_menu(&mut self) -> (h: usize)
        ensures
            final(self).spec_len() == old(self).spec_len() + 1,
            h as int == old(self).spec_len(),
            forall|j: usize| old(self).has(j) ==> final(self).obj(j) == old(self).obj(j),
            fresh_obj(final(self).obj(h), ObjKind::MenuObj, Seq::empty()),
    {
        self.alloc_obj(ObjKind::MenuObj, String::new())
    }

    /// Allocates a native menu item with its displayed title.
    pub fn alloc_item(&mut self, title: String) -> (h: usize)
        ensures
            final(self).spec_len() == old(self).spec_len() + 1,
            h as int == old(self).spec_len(),
            forall|j: usize| old(self).has(j) ==> final(self).obj(j) == old(self).obj(j),
            fresh_obj(final(self).obj(h), ObjKind::ItemObj, title@),
    {
        self.alloc_obj(ObjKind::ItemObj, title)
    }

    /// Allocates a click trampoline.
    pub fn alloc_trampoline(&mut self) -> (h: usize)
        ensures
            final(self).spec_len() == old(self).spec_len() + 1,
            h as int == old(self).spec_len(),
            forall|j: usize| old(self).has(j) ==> final(self).obj(j) == old(self).obj(j),
            fresh_obj(final(self).obj(h), ObjKind::TrampolineObj, Seq::empty()),
    {
        self.alloc_obj(ObjKind::TrampolineObj, String::new())
    }

    /// Allocates a status-bar slot.
    pub fn alloc_slot(&mut self, title: String) -> (h: usize)
        ensures
            final(self).spec_len() == old(self).spec_len() + 1,
            h as int == old(self).spec_len(),
            forall|j: usize| old(self).has(j) ==> final(self).obj(j) == old(self).obj(j),
            fresh_obj(final(self).obj(h), ObjKind::SlotObj, title@),
    {
        self.alloc_obj(ObjKind::SlotObj, title)
    }

    /// Appends an item to a menu's native child list, retaining the child.
    pub fn add_child(&mut self, m: usize, it: usize)
        requires
            old(self).live(m),
            old(self).obj(m).kind is MenuObj,
            old(self).live(it),
            old(self).obj(it).kind is ItemObj,
            old(self).obj(it).retain_count < usize::MAX,
        ensures
            final(self).spec_len() == old(self).spec_len(),
            forall|j: usize|
                old(self).has(j) && j != m && j != it ==> final(self).obj(j) == old(self).obj(j),
            same_except_children(old(self).obj(m), final(self).obj(m)),
            final(self).obj(m).children@ == old(self).obj(m).children@.push(it),
            same_except_rc(old(self).obj(it), final(self).obj(it)),
            final(self).obj(it).retain_count == old(self).obj(it).retain_count + 1,
    {
        let o = &mut self.objects[m];
        o.children.push(it);
        let c = &mut self.objects[it];
        c.retain_count = c.retain_count + 1;
    }

    #[verifier::loop_isolation(false)]
    /// Clears a menu's native child list, releasing each child once.  Each
    /// child must survive the release or already hold no references of its
    /// own, so no object dies holding references.
    pub fn clear_children(&mut self, m: usize)
        requires
            old(self).live(m),
            old(self).obj(m).kind is MenuObj,
            old(self).obj(m).children@.no_duplicates(),
            !old(self).obj(m).children@.contains(m),
            forall|i: int|
                0 <= i < old(self).obj(m).children@.len() ==> old(self).live(
                    #[trigger] old(self).obj(m).children@[i],
                ),
            forall|i: int|
                0 <= i < old(self).obj(m).children@.len() ==> (old(self).obj(
                    #[trigger] old(self).obj(m).children@[i],
                ).retain_count == 1 ==> refs_clear(old(self).obj(old(self).obj(m).children@[i]))),
        ensures
            final(self).spec_len() == old(self).spec_len(),
            forall|j: usize|
                old(self).has(j) && j != m && !old(self).obj(m).children@.contains(j) ==> final(self).obj(j) == old(self).obj(j),
            same_except_children(old(self).obj(m), final(self).obj(m)),
            final(self).obj(m).children@.len() == 0,
            forall|i: int|
                0 <= i < old(self).obj(m).children@.len() ==> {
                    &&& same_except_rc(
                        old(self).obj(#[trigger] old(self).obj(m).children@[i]),
                        final(self).obj(old(self).obj(m).children@[i]),
                    )
                    &&& final(self).obj(old(self).obj(m).children@[i]).retain_count == old(self).obj(old(self).obj(m).children@[i]).retain_count - 1
                },
    {
        let ghost cs = self.obj(m).children@;
        let n = self.objects[m].children.len();
        let mut i: usize = 0;
        while i < n
            invariant
                n == cs.len(),
                i <= n,
                self.spec_len() == old(self).spec_len(),
                self.has(m),
                self.obj(m) == old(self).obj(m),
                cs.no_duplicates(),
                !cs.contains(m),
                forall|j: usize|
                    old(self).has(j) && j != m && !cs.contains(j) ==> self.obj(j) == old(self).obj(
                        j,
                    ),
                forall|k: int|
                    0 <= k < i ==> {
                        &&& same_except_rc(
                            old(self).obj(#[trigger] cs[k]),
                            self.obj(cs[k]),
                        )
                        &&& self.obj(cs[k]).retain_count == old(self).obj(cs[k]).retain_count - 1
                    },
                forall|k: int| i <= k < n ==> self.obj(#[trigger] cs[k]) == old(self).obj(cs[k]),
            decreases n - i,
        {
            let c = self.objects[m].children[i];
            assert(c == cs[i as int]);
            let o = &mut self.objects[c];
            o.retain_count = o.retain_count - 1;
            i = i + 1;
        }
        let o = &mut self.objects[m];
        o.children = Vec::new();
    }

    /// Installs a click target on an item, retaining the trampoline.
    pub fn set_target(&mut self, it: usize, tr: usize)
        requires
            old(self).live(it),
            old(self).obj(it).kind is ItemObj,
            old(self).obj(it).target is None,
            old(self).live(tr),
            old(self).obj(tr).kind is TrampolineObj,
            old(self).obj(tr).retain_count < usize::MAX,
            it != tr,
        ensures
            final(self).spec_len() == old(self).spec_len(),
            forall|j: usize|
                old(self).has(j) && j != it && j != tr ==> final(self).obj(j) == old(self).obj(j),
            same_except_target(old(self).obj(it), final(self).obj(it)),
            final(self).obj(it).target == Some(tr),
            same_except_rc(old(self).obj(tr), final(self).obj(tr)),
            final(self).obj(tr).retain_count == old(self).obj(tr).retain_count + 1,
    {
        let o = &mut self.objects[it];
        o.target = Some(tr);
        let t = &mut self.objects[tr];
        t.retain_count = t.retain_count + 1;
    }

    /// Detaches an item's click target, releasing the trampoline.
    pub fn clear_target(&mut self, it: usize)
        requires
            old(self).live(it),
            old(self).obj(it).kind is ItemObj,
            old(self).obj(it).target matches Some(tr) && old(self).live(tr) && tr != it && (old(self).obj(tr).retain_count == 1 ==> refs_clear(old(self).obj(tr))),
        ensures
            final(self).spec_len() == old(self).spec_len(),
            forall|j: usize|
                old(self).has(j) && j != it && Some(j) != old(self).obj(it).target ==> final(self).obj(j) == old(self).obj(j),
            same_except_target(old(self).obj(it), final(self).obj(it)),
            final(self).obj(it).target is None,
            ({
                let tr = old(self).obj(it).target->0;
                &&& same_except_rc(old(self).obj(tr), final(self).obj(tr))
                &&& final(self).obj(tr).retain_count == old(self).obj(tr).retain_count - 1
            }),
    {
        let tr = self.objects[it].target.unwrap();
        let o = &mut self.objects[it];
        o.target = None;
        let t = &mut self.objects[tr];
        t.retain_count = t.retain_count - 1;
    }

    /// Attaches a submenu to an item, retaining the menu.
    pub fn set_submenu(&mut self, it: usize, m: usize)
        requires
            old(self).live(it),
            old(self).obj(it).kind is ItemObj,
            old(self).obj(it).submenu is None,
            old(self).live(m),
            old(self).obj(m).kind is MenuObj,
            old(self).obj(m).retain_count < usize::MAX,
        ensures
            final(self).spec_len() == old(self).spec_len(),
            forall|j: usize|
                old(self).has(j) && j != it && j != m ==> final(self).obj(j) == old(self).obj(j),
            same_except_submenu(old(self).obj(it), final(self).obj(it)),
            final(self).obj(it).submenu == Some(m),
            same_except_rc(old(self).obj(m), final(self).obj(m)),
            final(self).obj(m).retain_count == old(self).obj(m).retain_count + 1,
    {
        let o = &mut self.objects[it];
        o.submenu = Some(m);
        let t = &mut self.objects[m];
        t.retain_count = t.retain_count + 1;
    }

    /// Detaches an item's submenu, releasing the menu.
    pub fn clear_submenu(&mut self, it: usize)
        requires
            old(self).live(it),
            old(self).obj(it).kind is ItemObj,
            old(self).obj(it).submenu matches Some(m) && old(self).live(m) && m != it && (old(self).obj(m).retain_count == 1 ==> refs_clear(old(self).obj(m))),
        ensures
            final(self).spec_len() == old(self).spec_len(),
            forall|j: usize|
                old(self).has(j) && j != it && Some(j) != old(self).obj(it).submenu ==> final(self).obj(j) == old(self).obj(j),
            same_except_submenu(old(self).obj(it), final(self).obj(it)),
            final(self).obj(it).submenu is None,
            ({
                let m = old(self).obj(it).submenu->0;
                &&& same_except_rc(old(self).obj(m), final(self).obj(m))
                &&& final(self).obj(m).retain_count == old(self).obj(m).retain_count - 1
            }),
    {
        let m = self.objects[it].submenu.unwrap();
        let o = &mut self.objects[it];
        o.submenu = None;
        let t = &mut self.objects[m];
        t.retain_count = t.retain_count - 1;
    }

    /// Attaches a menu to a status-bar slot, retaining the menu.
    pub fn attach_menu(&mut self, slot: usize, m: usize)
        requires
            old(self).live(slot),
            old(self).obj(slot).kind is SlotObj,
            old(self).obj(slot).attached_menu is None,
            old(self).live(m),
            old(self).obj(m).kind is MenuObj,
            old(self).obj(m).retain_count < usize::MAX,
        ensures
            final(self).spec_len() == old(self).spec_len(),
            forall|j: usize|
                old(self).has(j) && j != slot && j != m ==> final(self).obj(j) == old(self).obj(j),
            same_except_attached(old(self).obj(slot), final(self).obj(slot)),
            final(self).obj(slot).attached_menu == Some(m),
            same_except_rc(old(self).obj(m), final(self).obj(m)),
            final(self).obj(m).retain_count == old(self).obj(m).retain_count + 1,
    {
        let o = &mut self.objects[slot];
        o.attached_menu = Some(m);
        let t = &mut self.objects[m];
        t.retain_count = t.retain_count + 1;
    }

    /// Detaches a slot's menu, releasing it.
    pub fn detach_menu(&mut self, slot: usize)
        requires
            old(self).live(slot),
            old(self).obj(slot).kind is SlotObj,
            old(self).obj(slot).attached_menu matches Some(m) && old(self).live(m) && m != slot
                && (old(self).obj(m).retain_count == 1 ==> refs_clear(old(self).obj(m))),
        ensures
            final(self).spec_len() == old(self).spec_len(),
            forall|j: usize|
                old(self).has(j) && j != slot && Some(j) != old(self).obj(slot).attached_menu
                    ==> final(self).obj(j) == old(self).obj(j),
            same_except_attached(old(self).obj(slot), final(self).obj(slot)),
            final(self).obj(slot).attached_menu is None,
            ({
                let m = old(self).obj(slot).attached_menu->0;
                &&& same_except_rc(old(self).obj(m), final(self).obj(m))
                &&& final(self).obj(m).retain_count == old(self).obj(m).retain_count - 1
            }),
    {
        let m = self.objects[slot].attached_menu.unwrap();
        let o = &mut self.objects[slot];
        o.attached_menu = None;
        let t = &mut self.objects[m];
        t.retain_count = t.retain_count - 1;
    }

    /// Drops one reference.  An object losing its last reference must no
    /// longer hold references of its own: children are detached before the
    /// parent goes, never after.
    pub fn release(&mut self, h: usize)
        requires
            old(self).live(h),
            old(self).obj(h).retain_count == 1 ==> refs_clear(old(self).obj(h)),
        ensures
            final(self).spec_len() == old(self).spec_len(),
            forall|j: usize| old(self).has(j) && j != h ==> final(self).obj(j) == old(self).obj(j),
            same_except_rc(old(self).obj(h), final(self).obj(h)),
            final(self).obj(h).retain_count == old(self).obj(h).retain_count - 1,
    {
        let o = &mut self.objects[h];
        o.retain_count = o.retain_count - 1;
    }

    /// Replaces the displayed title of an item or a slot.
    pub fn set_title_of(&mut self, h: usize, title: String)
        requires
            old(self).live(h),
        ensures
            final(self).spec_len() == old(self).spec_len(),
            forall|j: usize| old(self).has(j) && j != h ==> final(self).obj(j) == old(self).obj(j),
            same_except_title(old(self).obj(h), final(self).obj(h)),
            final(self).obj(h).title@ == title@,
    {
        let o = &mut self.objects[h];
        o.title = title;
    }

    /// Replaces the displayed icon of a slot.
    pub fn set_image_of(&mut self, h: usize, name: String)
        requires
            old(self).live(h),
        ensures
            final(self).spec_len() == old(self).spec_len(),
            forall|j: usize| old(self).has(j) && j != h ==> final(self).obj(j) == old(self).obj(j),
            same_except_image(old(self).obj(h), final(self).obj(h)),
            final(self).obj(h).image == Some(name),
    {
        let o = &mut self.objects[h];
        o.image = Some(name);
    }

    /// The native click path: dispatches one click on an item through its
    /// installed target, which invokes the application callback once.  One
    /// click, one invocation — nothing is coalesced and nothing else moves.
    pub fn click(&mut self, it: usize)
        requires
            old(self).live(it),
            old(self).obj(it).kind is ItemObj,
            old(self).obj(it).target matches Some(tr) && old(self).live(tr) && old(self).obj(
                tr,
            ).clicks < usize::MAX,
        ensures
            final(self).objects@ == click_step(old(self).objects@, old(self).obj(it).target->0 as int),
    {
        let tr = self.objects[it].target.unwrap();
        let t = &mut self.objects[tr];
        t.clicks = t.clicks + 1;
    }

    /// How often the trampoline behind the handle was invoked.
    pub fn clicks_of(&self, tr: usize) -> (n: usize)
        requires
            self.has(tr),
        ensures
            n == self.obj(tr).clicks,
    {
        self.objects[tr].clicks
    }

    /// The retain count of the object behind the handle.
    pub fn retain_count_of(&self, h: usize) -> (n: usize)
        requires
            self.has(h),
        ensures
            n == self.obj(h).retain_count,
    {
        self.objects[h].retain_count
    }

    /// The native child count of a menu.
    pub fn child_count_of(&self, m: usize) -> (n: usize)
        requires
            self.has(m),
        ensures
            n == self.obj(m).children@.len(),
    {
        self.objects[m].children.len()
    }

    /// The native child at an index of a menu.
    pub fn child_at(&self, m: usize, i: usize) -> (h: usize)
        requires
            self.has(m),
            i < self.obj(m).children@.len(),
        ensures
            h == self.obj(m).children@[i as int],
    {
        self.objects[m].children[i]
    }

    /// The displayed title of an item or slot.
    pub fn title_of(&self, h: usize) -> (t: &String)
        requires
            self.has(h),
        ensures
            t == self.obj(h).title,
    {
        &self.objects[h].title
    }

    /// Whether an item has a click target installed.
    pub fn has_target(&self, it: usize) -> (r: bool)
        requires
            self.has(it),
        ensures
            r == (self.obj(it).target is Some),
    {
        self.objects[it].target.is_some()
    }

    /// The menu attached to a slot, if any.
    pub fn attached_menu_of(&self, slot: usize) -> (r: Option<usize>)
        requires
            self.has(slot),
        ensures
            r == self.obj(slot).attached_menu,
    {
        self.objects[slot].attached_menu
    }
}

/// One click on the trampoline behind handle `tr`: its invocation count goes
/// up by one and nothing else changes.
pub open spec fn click_step(objs: Seq<NativeObj>, tr: int) -> Seq<NativeObj> {
    objs.update(tr, NativeObj { clicks: (objs[tr].clicks + 1) as usize, ..objs[tr] })
}

/// `k` clicks in a row on the same trampoline.
pub open spec fn click_steps(objs: Seq<NativeObj>, tr: int, k: nat) -> Seq<NativeObj>
    decreases k,
{
    if k == 0 {
        objs
    } else {
        click_step(click_steps(objs, tr, (k - 1) as nat), tr)
    }
}

/// Law: the click path neither loses nor coalesces invocations.  Clicking a
/// trampoline exactly `k` times invokes it exactly `k` more times, and leaves
/// every other object untouched.
pub proof fn lemma_clicks_accumulate(objs: Seq<NativeObj>, tr: int, k: nat)
    requires
        0 <= tr < objs.len(),
        objs[tr].clicks + k <= usize::MAX,
    ensures
        click_steps(objs, tr, k).len() == objs.len(),
        click_steps(objs, tr, k)[tr].clicks == objs[tr].clicks + k,
        same_except_clicks(objs[tr], click_steps(objs, tr, k)[tr]),
        forall|j: int| 0 <= j < objs.len() && j != tr ==> click_steps(objs, tr, k)[j] == objs[j],
    decreases k,
{
    if k > 0 {
        lemma_clicks_accumulate(objs, tr, (k - 1) as nat);
    }
}

/// `b` agrees with `a` on every field except possibly the invocation count.
pub open spec fn same_except_clicks(a: NativeObj, b: NativeObj) -> bool {
    b == (NativeObj { clicks: b.clicks, ..a })
}

} // verus!
