//! The verified object-lifecycle layer: status items, menus, menu items and
//! click callbacks as exclusive-ownership trees over the native object store.
//!
//! Each wrapper value owns exactly one reference to its native object;
//! attaching a child to a parent retains the child, and teardown runs
//! child-before-parent: detach the click target, then the submenu, then
//! release the handle — so no object ever dies still holding references, and
//! destroying a tree leaves no dangling native child references behind.

use vstd::prelude::*;
use crate::registry::NativeRegistry;
use crate::registry::refs_clear;
use crate::registry::same_except_rc;

verus! {

/// Owns the native trampoline that the toolkit invokes on a click; the
/// trampoline's only job is to re-enter the application callback, and the
/// store counts its invocations.  The platform layer supplies the actual
/// closure; its invocation count is this model's observable.
#[derive(Debug)]
pub struct CallbackBridge {
    pub trampoline: usize,
}

/// A menu entry: a title, an optional click callback and an optional
/// attached submenu.  Changing an item means building a new one.
#[derive(Debug)]
pub struct MenuItem {
    pub handle: usize,
    pub title: String,
    pub callback: Option<CallbackBridge>,
    pub submenu: Option<Menu>,
}

/// An ordered collection of menu items, fixed at construction and
/// materialized as one native menu object.
#[derive(Debug)]
pub struct Menu {
    pub handle: usize,
    pub items: Vec<MenuItem>,
}

impl MenuItem {
    /// The handle belongs to this item's ownership tree: its own, its
    /// trampoline's, or one of its submenu's tree.
    pub open spec fn owns(self, h: usize) -> bool
        decreases self,
    {
        ||| h == self.handle
        ||| match self.callback {
            Some(cb) => h == cb.trampoline,
            None => false,
        }
        ||| match self.submenu {
            Some(m) => m.owns(h),
            None => false,
        }
    }

    /// The item's ownership tree is intact in the store: its native object
    /// carries its title and exactly the references the wrappers own, the
    /// retain count is one (for the owning value) plus one per referencing
    /// parent, and the subtrees are intact and disjoint in turn.
    pub open spec fn wf(self, reg: NativeRegistry, parent_refs: int) -> bool
        decreases self,
    {
        &&& reg.has(self.handle)
        &&& reg.obj(self.handle).kind is ItemObj
        &&& reg.obj(self.handle).retain_count == 1 + parent_refs
        &&& reg.obj(self.handle).title@ == self.title@
        &&& reg.obj(self.handle).children@.len() == 0
        &&& reg.obj(self.handle).attached_menu is None
        &&& match self.callback {
            Some(cb) => {
                &&& reg.obj(self.handle).target == Some(cb.trampoline)
                &&& cb.trampoline != self.handle
                &&& reg.has(cb.trampoline)
                &&& reg.obj(cb.trampoline).kind is TrampolineObj
                &&& reg.obj(cb.trampoline).retain_count == 2
                &&& refs_clear(reg.obj(cb.trampoline))
            },
            None => reg.obj(self.handle).target is None,
        }
        &&& match self.submenu {
            Some(m) => {
                &&& reg.obj(self.handle).submenu == Some(m.handle)
                &&& m.wf(reg, 1)
                &&& !m.owns(self.handle)
                &&& match self.callback {
                    Some(cb) => !m.owns(cb.trampoline),
                    None => true,
                }
            },
            None => reg.obj(self.handle).submenu is None,
        }
    }
}

impl Menu {
    /// The handle belongs to this menu's ownership tree: its own or to some
    /// item's tree.
    pub open spec fn owns(self, h: usize) -> bool
        decreases self,
    {
        ||| h == self.handle
        ||| exists|i: int| 0 <= i < self.items@.len() && (#[trigger] self.items[i]).owns(h)
    }

    /// The menu's ownership tree is intact in the store: the native child
    /// list is exactly the items' handles in display order, each item is
    /// intact with one extra reference (the native child reference), and the
    /// items' trees are pairwise disjoint.
    pub open spec fn wf(self, reg: NativeRegistry, holder_refs: int) -> bool
        decreases self,
    {
        &&& reg.has(self.handle)
        &&& reg.obj(self.handle).kind is MenuObj
        &&& reg.obj(self.handle).retain_count == 1 + holder_refs
        &&& reg.obj(self.handle).children@ == Seq::new(
            self.items@.len(),
            |i: int| self.items[i].handle,
        )
        &&& reg.obj(self.handle).submenu is None
        &&& reg.obj(self.handle).target is None
        &&& reg.obj(self.handle).attached_menu is None
        &&& forall|i: int| 0 <= i < self.items@.len() ==> (#[trigger] self.items[i]).wf(reg, 1)
        &&& forall|i: int|
            0 <= i < self.items@.len() ==> !(#[trigger] self.items[i]).owns(self.handle)
        &&& forall|i: int, j: int|
            0 <= i < self.items@.len() && 0 <= j < self.items@.len() && i != j ==> disjoint_items(
                #[trigger] self.items[i],
                #[trigger] self.items[j],
            )
    }
}

/// Two items' ownership trees share no handle.
pub open spec fn disjoint_items(a: MenuItem, b: MenuItem) -> bool {
    forall|h: usize| !(#[trigger] a.owns(h) && #[trigger] b.owns(h))
}

/// An item's tree always holds the item's own handle.
pub proof fn lemma_item_owns_self(it: MenuItem)
    ensures
        it.owns(it.handle),
{
}

/// Every handle in an intact item's tree denotes an object of the store.
pub proof fn lemma_item_owns_in_store(it: MenuItem, reg: NativeRegistry, parent_refs: int)
    requires
        it.wf(reg, parent_refs),
    ensures
        forall|h: usize| #[trigger] it.owns(h) ==> reg.has(h),
    decreases it,
{
    if let Some(m) = it.submenu {
        lemma_menu_owns_in_store(m, reg, 1);
    }
    assert forall|h: usize| #[trigger] it.owns(h) implies reg.has(h) by {
        match it.submenu {
            Some(m) => {
                if h != it.handle && !(it.callback matches Some(cb) && h == cb.trampoline) {
                    assert(m.owns(h));
                }
            },
            None => {},
        }
    }
}

/// Every handle in an intact menu's tree denotes an object of the store.
pub proof fn lemma_menu_owns_in_store(m: Menu, reg: NativeRegistry, holder_refs: int)
    requires
        m.wf(reg, holder_refs),
    ensures
        forall|h: usize| #[trigger] m.owns(h) ==> reg.has(h),
    decreases m,
{
    assert forall|h: usize| #[trigger] m.owns(h) implies reg.has(h) by {
        if h != m.handle {
            let i = choose|i: int| 0 <= i < m.items@.len() && (#[trigger] m.items[i]).owns(h);
            lemma_item_owns_in_store(m.items[i], reg, 1);
        }
    }
}

/// An item's intactness depends only on the store's objects at the handles
/// of its own tree.
pub proof fn lemma_item_wf_frame(
    it: MenuItem,
    r1: NativeRegistry,
    r2: NativeRegistry,
    parent_refs: int,
)
    requires
        it.wf(r1, parent_refs),
        forall|h: usize| #[trigger] it.owns(h) ==> r1.has(h) && r2.has(h) && r2.obj(h) == r1.obj(h),
    ensures
        it.wf(r2, parent_refs),
    decreases it,
{
    assert(it.owns(it.handle));
    if let Some(cb) = it.callback {
        assert(it.owns(cb.trampoline));
    }
    if let Some(m) = it.submenu {
        assert forall|h: usize| #[trigger] m.owns(h) implies r1.has(h) && r2.has(h) && r2.obj(h)
            == r1.obj(h) by {
            assert(it.owns(h));
        }
        lemma_menu_wf_frame(m, r1, r2, 1);
    }
}

/// A menu's intactness depends only on the store's objects at the handles of
/// its own tree.
pub proof fn lemma_menu_wf_frame(m: Menu, r1: NativeRegistry, r2: NativeRegistry, holder_refs: int)
    requires
        m.wf(r1, holder_refs),
        forall|h: usize| #[trigger] m.owns(h) ==> r1.has(h) && r2.has(h) && r2.obj(h) == r1.obj(h),
    ensures
        m.wf(r2, holder_refs),
    decreases m,
{
    assert(m.owns(m.handle));
    assert forall|i: int| 0 <= i < m.items@.len() implies (#[trigger] m.items[i]).wf(r2, 1) by {
        assert forall|h: usize| #[trigger] m.items[i].owns(h) implies r1.has(h) && r2.has(h)
            && r2.obj(h) == r1.obj(h) by {
            assert(m.owns(h));
        }
        lemma_item_wf_frame(m.items[i], r1, r2, 1);
    }
}

/// An intact item stays intact when only its own object's retain count moves
/// with the number of referencing parents.
pub proof fn lemma_item_wf_rc_change(
    it: MenuItem,
    r1: NativeRegistry,
    r2: NativeRegistry,
    refs_before: int,
    refs_after: int,
)
    requires
        it.wf(r1, refs_before),
        r2.has(it.handle),
        same_except_rc(r1.obj(it.handle), r2.obj(it.handle)),
        r2.obj(it.handle).retain_count == 1 + refs_after,
        forall|h: usize|
            #[trigger] it.owns(h) && h != it.handle ==> r1.has(h) && r2.has(h) && r2.obj(h)
                == r1.obj(h),
    ensures
        it.wf(r2, refs_after),
{
    if let Some(cb) = it.callback {
        assert(it.owns(cb.trampoline));
    }
    if let Some(m) = it.submenu {
        assert forall|h: usize| #[trigger] m.owns(h) implies r1.has(h) && r2.has(h) && r2.obj(h)
            == r1.obj(h) by {
            assert(it.owns(h));
            assert(h != it.handle);
        }
        lemma_menu_wf_frame(m, r1, r2, 1);
    }
}

/// An intact menu stays intact when only its own object's retain count moves
/// with the number of holders.
pub proof fn lemma_menu_wf_rc_change(
    m: Menu,
    r1: NativeRegistry,
    r2: NativeRegistry,
    refs_before: int,
    refs_after: int,
)
    requires
        m.wf(r1, refs_before),
        r2.has(m.handle),
        same_except_rc(r1.obj(m.handle), r2.obj(m.handle)),
        r2.obj(m.handle).retain_count == 1 + refs_after,
        forall|h: usize|
            #[trigger] m.owns(h) && h != m.handle ==> r1.has(h) && r2.has(h) && r2.obj(h) == r1.obj(
                h,
            ),
    ensures
        m.wf(r2, refs_after),
{
    assert forall|i: int| 0 <= i < m.items@.len() implies (#[trigger] m.items[i]).wf(r2, 1) by {
        assert forall|h: usize| #[trigger] m.items[i].owns(h) implies r1.has(h) && r2.has(h)
            && r2.obj(h) == r1.obj(h) by {
            assert(m.owns(h));
            assert(h != m.handle);
        }
        lemma_item_wf_frame(m.items[i], r1, r2, 1);
    }
}

impl CallbackBridge {
    /// Builds the native trampoline for one application callback.  The
    /// platform layer pairs the fresh trampoline with the actual closure;
    /// here the trampoline starts un-invoked and referenced only by this
    /// bridge.
    pub fn new(reg: &mut NativeRegistry) -> (cb: CallbackBridge)
        ensures
            final(reg).spec_len() == old(reg).spec_len() + 1,
            cb.trampoline as int == old(reg).spec_len(),
            forall|j: usize| old(reg).has(j) ==> final(reg).obj(j) == old(reg).obj(j),
            final(reg).obj(cb.trampoline).kind is TrampolineObj,
            final(reg).obj(cb.trampoline).retain_count == 1,
            refs_clear(final(reg).obj(cb.trampoline)),
            final(reg).obj(cb.trampoline).clicks == 0,
    {
        CallbackBridge { trampoline: reg.alloc_trampoline() }
    }

    /// How often the toolkit has invoked this bridge's callback.
    pub fn invocations(&self, reg: &NativeRegistry) -> (n: usize)
        requires
            reg.has(self.trampoline),
        ensures
            n == reg.obj(self.trampoline).clicks,
    {
        reg.clicks_of(self.trampoline)
    }
}

impl MenuItem {
    /// Builds a native item with the given title; installs the callback
    /// bridge as the native click target if one is given, and attaches the
    /// submenu if one is given.  Installing only retains: the trampoline's
    /// and the submenu's objects are otherwise untouched — in particular the
    /// trampoline's invocation count stays where it was.
    pub fn new(
        reg: &mut NativeRegistry,
        title: String,
        callback: Option<CallbackBridge>,
        submenu: Option<Menu>,
    ) -> (r: MenuItem)
        requires
            match callback {
                Some(cb) => old(reg).has(cb.trampoline) && old(reg).obj(cb.trampoline).kind
                    is TrampolineObj && old(reg).obj(cb.trampoline).retain_count == 1
                    && refs_clear(old(reg).obj(cb.trampoline)),
                None => true,
            },
            match submenu {
                Some(m) => m.wf(*old(reg), 0),
                None => true,
            },
            match (callback, submenu) {
                (Some(cb), Some(m)) => !m.owns(cb.trampoline),
                _ => true,
            },
        ensures
            final(reg).spec_len() == old(reg).spec_len() + 1,
            r.handle as int == old(reg).spec_len(),
            r.title == title,
            r.callback == callback,
            r.submenu == submenu,
            r.wf(*final(reg), 0),
            match callback {
                Some(cb) => same_except_rc(old(reg).obj(cb.trampoline), final(reg).obj(cb.trampoline)),
                None => true,
            },
            match submenu {
                Some(m) => same_except_rc(old(reg).obj(m.handle), final(reg).obj(m.handle)),
                None => true,
            },
            forall|h: usize|
                old(reg).has(h) && (match callback {
                    Some(cb) => h != cb.trampoline,
                    None => true,
                }) && (match submenu {
                    Some(m) => h != m.handle,
                    None => true,
                }) ==> final(reg).obj(h) == old(reg).obj(h),
    {
        let handle = reg.alloc_item(title.clone());
        let ghost reg1 = *reg;
        match &callback {
            Some(cb) => {
                reg.set_target(handle, cb.trampoline);
            },
            None => {},
        }
        let ghost reg2 = *reg;
        match &submenu {
            Some(m) => {
                proof {
                    lemma_menu_owns_in_store(*m, *old(reg), 0);
                    assert(m.owns(m.handle));
                    lemma_menu_wf_frame(*m, *old(reg), reg2, 0);
                }
                reg.set_submenu(handle, m.handle);
                proof {
                    lemma_menu_wf_rc_change(*m, reg2, *reg, 0, 1);
                }
            },
            None => {},
        }
        let r = MenuItem { handle, title, callback, submenu };
        proof {
            match &r.submenu {
                Some(m) => {
                    assert(!m.owns(r.handle));
                },
                None => {},
            }
        }
        r
    }

    /// The attached submenu, if any.
    pub fn submenu(&self) -> (r: Option<&Menu>)
        ensures
            match self.submenu {
                Some(ref m) => r == Some(m),
                None => r is None,
            },
    {
        self.submenu.as_ref()
    }

    /// The item's title.
    pub fn title(&self) -> (r: &String)
        ensures
            r == self.title,
    {
        &self.title
    }

    /// Tears the item down child-before-parent: detach the native click
    /// target, drop the bridge, detach the submenu, tear it down, then
    /// release the item's own handle.  The whole ownership tree ends up
    /// released, with no references left dangling anywhere.
    pub fn dispose(self, reg: &mut NativeRegistry)
        requires
            self.wf(*old(reg), 0),
        ensures
            final(reg).spec_len() == old(reg).spec_len(),
            forall|h: usize|
                #[trigger] self.owns(h) ==> final(reg).has(h) && final(reg).obj(h).retain_count
                    == 0 && refs_clear(final(reg).obj(h)),
            forall|h: usize|
                old(reg).has(h) && !self.owns(h) ==> final(reg).obj(h) == old(reg).obj(h),
        decreases self,
    {
        let ghost this = self;
        let ghost reg0 = *old(reg);
        let MenuItem { handle, title: _, callback, submenu } = self;
        match &callback {
            Some(cb) => {
                reg.clear_target(handle);
                reg.release(cb.trampoline);
            },
            None => {},
        }
        let ghost reg2 = *reg;
        match submenu {
            Some(m) => {
                proof {
                    assert(m.owns(m.handle));
                    assert(m.handle != handle);
                    lemma_menu_owns_in_store(m, reg0, 1);
                    match this.callback {
                        Some(cb) => {
                            assert(!m.owns(cb.trampoline));
                            lemma_menu_wf_frame(m, reg0, reg2, 1);
                        },
                        None => {
                            assert(reg2 == reg0);
                        },
                    }
                    assert(m.wf(reg2, 1));
                }
                reg.clear_submenu(handle);
                proof {
                    assert forall|h: usize|
                        #[trigger] m.owns(h) && h != m.handle implies reg2.has(h) && reg.has(h)
                            && reg.obj(h) == reg2.obj(h) by {
                        assert(h != handle);
                    }
                    lemma_menu_wf_rc_change(m, reg2, *reg, 1, 0);
                    assert(decreases_to!(this => m));
                }
                m.dispose(reg);
            },
            None => {},
        }
        reg.release(handle);
        proof {
            assert forall|h: usize| #[trigger] this.owns(h) implies reg.has(h) && reg.obj(
                h,
            ).retain_count == 0 && refs_clear(reg.obj(h)) by {
                if h != this.handle {
                    match this.callback {
                        Some(cb) => {
                            if h != cb.trampoline {
                                match this.submenu {
                                    Some(m) => {
                                        assert(m.owns(h));
                                    },
                                    None => {},
                                }
                            }
                        },
                        None => {
                            match this.submenu {
                                Some(m) => {
                                    assert(m.owns(h));
                                },
                                None => {},
                            }
                        },
                    }
                }
            }
            assert forall|h: usize|
                old(reg).has(h) && !this.owns(h) implies reg.obj(h) == old(reg).obj(h) by {
                assert(h != this.handle);
                match this.callback {
                    Some(cb) => {
                        assert(h != cb.trampoline);
                    },
                    None => {},
                }
                match this.submenu {
                    Some(m) => {
                        assert(!m.owns(h));
                        assert(h != m.handle);
                    },
                    None => {},
                }
            }
        }
    }
}

impl Menu {
    /// Materializes a native menu and appends each item's native handle in
    /// display order.  No later mutation is exposed: changing contents means
    /// constructing a new menu and swapping it in at the status-item level.
    /// Immediately after construction the native child count equals the
    /// number of items.
    #[verifier::loop_isolation(false)]
    pub fn new(reg: &mut NativeRegistry, items: Vec<MenuItem>) -> (r: Menu)
        requires
            forall|i: int| 0 <= i < items@.len() ==> (#[trigger] items[i]).wf(*old(reg), 0),
            forall|i: int, j: int|
                0 <= i < items@.len() && 0 <= j < items@.len() && i != j ==> disjoint_items(
                    #[trigger] items[i],
                    #[trigger] items[j],
                ),
        ensures
            final(reg).spec_len() == old(reg).spec_len() + 1,
            r.handle as int == old(reg).spec_len(),
            r.items == items,
            r.wf(*final(reg), 0),
            final(reg).obj(r.handle).children@.len() == items@.len(),
            forall|h: usize|
                old(reg).has(h) && !(exists|i: int|
                    0 <= i < items@.len() && (#[trigger] items[i]).handle == h) ==> final(reg).obj(
                    h,
                ) == old(reg).obj(h),
    {
        let handle = reg.alloc_menu();
        proof {
            assert forall|i: int| 0 <= i < items@.len() implies !(#[trigger] items[i]).owns(
                handle,
            ) by {
                lemma_item_owns_in_store(items[i], *old(reg), 0);
            }
        }
        let n = items.len();
        proof {
            assert(reg.obj(handle).children@ =~= Seq::new(0nat, |k: int| items[k].handle));
            assert forall|k: int| 0 <= k < n implies (#[trigger] items[k]).wf(*reg, 0) by {
                lemma_item_owns_in_store(items[k], *old(reg), 0);
                lemma_item_wf_frame(items[k], *old(reg), *reg, 0);
            }
        }
        let mut idx: usize = 0;
        while idx < n
            invariant
                idx <= n,
                n == items@.len(),
                reg.spec_len() == old(reg).spec_len() + 1,
                handle as int == old(reg).spec_len(),
                reg.has(handle),
                reg.obj(handle).kind is MenuObj,
                reg.obj(handle).retain_count == 1,
                reg.obj(handle).title@ == Seq::<char>::empty(),
                reg.obj(handle).submenu is None,
                reg.obj(handle).target is None,
                reg.obj(handle).attached_menu is None,
                reg.obj(handle).image is None,
                reg.obj(handle).clicks == 0,
                reg.obj(handle).children@ == Seq::new(idx as nat, |k: int| items[k].handle),
                forall|k: int| 0 <= k < idx ==> (#[trigger] items[k]).wf(*reg, 1),
                forall|k: int| idx <= k < n ==> (#[trigger] items[k]).wf(*reg, 0),
                forall|h: usize|
                    old(reg).has(h) && !(exists|k: int|
                        0 <= k < idx && (#[trigger] items[k]).handle == h) ==> reg.obj(h) == old(
                        reg,
                    ).obj(h),
            decreases n - idx,
        {
            let ghost pre = *reg;
            let it_handle = items[idx].handle;
            proof {
                assert(items[idx as int].wf(pre, 0));
            }
            reg.add_child(handle, it_handle);
            proof {
                assert(items[idx as int].owns(it_handle));
                assert forall|k: int| 0 <= k < idx implies (#[trigger] items[k]).wf(*reg, 1) by {
                    lemma_item_owns_in_store(items[k], pre, 1);
                    assert(disjoint_items(items[k], items[idx as int]));
                    lemma_item_wf_frame(items[k], pre, *reg, 1);
                }
                assert forall|k: int| idx + 1 <= k < n implies (#[trigger] items[k]).wf(
                    *reg,
                    0,
                ) by {
                    lemma_item_owns_in_store(items[k], pre, 0);
                    assert(disjoint_items(items[k], items[idx as int]));
                    lemma_item_wf_frame(items[k], pre, *reg, 0);
                }
                lemma_item_owns_in_store(items[idx as int], pre, 0);
                lemma_item_wf_rc_change(items[idx as int], pre, *reg, 0, 1);
                assert(reg.obj(handle).children@ =~= Seq::new(
                    (idx + 1) as nat,
                    |k: int| items[k].handle,
                ));
            }
            idx = idx + 1;
        }
        Menu { handle, items }
    }

    /// The items, in display order.
    pub fn items(&self) -> (r: &Vec<MenuItem>)
        ensures
            r == self.items,
    {
        &self.items
    }

    /// Tears the menu down child-before-parent: clear the native child
    /// list, tear down each item's tree, then release the menu's own
    /// handle.  Afterwards every handle of the menu's ownership tree is
    /// fully released and holds no references — no native child reference
    /// is left dangling — while every object outside the tree is untouched.
    #[verifier::loop_isolation(false)]
    pub fn dispose(self, reg: &mut NativeRegistry)
        requires
            self.wf(*old(reg), 0),
        ensures
            final(reg).spec_len() == old(reg).spec_len(),
            forall|h: usize|
                #[trigger] self.owns(h) ==> final(reg).has(h) && final(reg).obj(h).retain_count
                    == 0 && refs_clear(final(reg).obj(h)),
            forall|h: usize|
                old(reg).has(h) && !self.owns(h) ==> final(reg).obj(h) == old(reg).obj(h),
        decreases self,
    {
        let ghost this = self;
        let n = self.items.len();
        proof {
            let cs = old(reg).obj(self.handle).children@;
            assert forall|i: int, j: int|
                0 <= i < n && 0 <= j < n && i != j implies cs[i] != cs[j] by {
                lemma_item_owns_self(this.items[i]);
                lemma_item_owns_self(this.items[j]);
                assert(disjoint_items(this.items[i], this.items[j]));
            }
            assert(cs.no_duplicates());
            assert forall|i: int| 0 <= i < n implies cs[i] != this.handle by {
                lemma_item_owns_self(this.items[i]);
                assert(!this.items[i].owns(this.handle));
            }
            assert(!cs.contains(this.handle));
            assert forall|i: int| 0 <= i < n implies old(reg).live(#[trigger] cs[i]) by {
                assert(this.items[i].wf(*old(reg), 1));
            }
        }
        let Menu { handle, items } = self;
        reg.clear_children(handle);
        let ghost reg1 = *reg;
        proof {
            assert forall|k: int| 0 <= k < n implies (#[trigger] this.items[k]).wf(reg1, 0) by {
                let pre = *old(reg);
                let cs = pre.obj(this.handle).children@;
                assert(cs[k] == this.items[k].handle);
                assert(same_except_rc(pre.obj(cs[k]), reg1.obj(cs[k])));
                assert forall|h: usize|
                    #[trigger] this.items[k].owns(h) && h != this.items[k].handle implies pre.has(
                        h,
                    ) && reg1.has(h) && reg1.obj(h) == pre.obj(h) by {
                    lemma_item_owns_in_store(this.items[k], pre, 1);
                    assert(h != this.handle) by {
                        assert(!this.items[k].owns(this.handle));
                    }
                    if cs.contains(h) {
                        let j = choose|j: int| 0 <= j < cs.len() && cs[j] == h;
                        assert(this.items[j].owns(h));
                        if j != k {
                            assert(disjoint_items(this.items[j], this.items[k]));
                        }
                    }
                }
                lemma_item_wf_rc_change(this.items[k], pre, reg1, 1, 0);
            }
        }
        let mut rest = items;
        while rest.len() > 0
            invariant
                rest@.len() <= n,
                rest@ == this.items@.subrange(0, rest@.len() as int),
                reg.spec_len() == old(reg).spec_len(),
                reg.has(this.handle),
                reg.obj(this.handle) == reg1.obj(this.handle),
                reg.obj(this.handle).retain_count == 1,
                reg.obj(this.handle).children@.len() == 0,
                refs_clear(reg.obj(this.handle)),
                forall|k: int| 0 <= k < rest@.len() ==> (#[trigger] this.items[k]).wf(*reg, 0),
                forall|k: int, h: usize|
                    rest@.len() <= k < n && #[trigger] this.items[k].owns(h) ==> reg.has(h)
                        && reg.obj(h).retain_count == 0 && refs_clear(reg.obj(h)),
                forall|h: usize|
                    reg1.has(h) && h != this.handle && !(exists|k: int|
                        rest@.len() <= k < n && (#[trigger] this.items[k]).owns(h)) ==> reg.obj(h)
                        == reg1.obj(h),
            decreases rest@.len(),
        {
            let ghost pre = *reg;
            let ghost klast = rest@.len() - 1;
            let it = rest.pop().unwrap();
            proof {
                assert(it == this.items[klast]);
                assert(decreases_to!(this => it));
            }
            it.dispose(reg);
            proof {
                assert forall|k: int| 0 <= k < rest@.len() implies (#[trigger] this.items[k]).wf(
                    *reg,
                    0,
                ) by {
                    assert(disjoint_items(this.items[k], this.items[klast]));
                    lemma_item_owns_in_store(this.items[k], pre, 0);
                    assert forall|h: usize| #[trigger] this.items[k].owns(h) implies pre.has(h)
                        && reg.has(h) && reg.obj(h) == pre.obj(h) by {
                        assert(!this.items[klast].owns(h));
                    }
                    lemma_item_wf_frame(this.items[k], pre, *reg, 0);
                }
                assert(!this.items[klast].owns(this.handle));
                assert(pre.has(this.handle));
                assert(reg.obj(this.handle) == pre.obj(this.handle));
                assert forall|k: int, h: usize|
                    rest@.len() <= k < n && #[trigger] this.items[k].owns(h) implies reg.has(h)
                        && reg.obj(h).retain_count == 0 && refs_clear(reg.obj(h)) by {
                    if k != klast {
                        assert(disjoint_items(this.items[k], this.items[klast]));
                        assert(!this.items[klast].owns(h));
                        assert(pre.has(h));
                    }
                }
                assert forall|h: usize|
                    reg1.has(h) && h != this.handle && !(exists|k: int|
                        rest@.len() <= k < n && (#[trigger] this.items[k]).owns(h)) implies reg.obj(
                    h,
                ) == reg1.obj(h) by {
                    assert(!this.items[klast].owns(h));
                    assert(pre.has(h));
                }
            }
        }
        let ghost regpre = *reg;
        reg.release(handle);
        proof {
            lemma_menu_owns_in_store(this, *old(reg), 0);
            assert forall|h: usize| #[trigger] this.owns(h) implies reg.has(h) && reg.obj(
                h,
            ).retain_count == 0 && refs_clear(reg.obj(h)) by {
                if h != this.handle {
                    let k = choose|k: int|
                        0 <= k < this.items@.len() && (#[trigger] this.items[k]).owns(h);
                    assert(this.items[k].owns(h));
                    assert(regpre.obj(h).retain_count == 0 && refs_clear(regpre.obj(h)));
                }
            }
        }
    }
}

} // verus!

