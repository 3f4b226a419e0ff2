//! The top-level handle: a status-bar slot with a displayed title, an
//! optional icon, and one attached menu.  Swapping the menu attaches the new
//! one and then tears the old one down completely, so the toolkit is never
//! left holding references into a tree that no longer has an owner.

use vstd::prelude::*;
use crate::menus::Menu;
use crate::menus::lemma_menu_owns_in_store;
use crate::menus::lemma_menu_wf_frame;
use crate::menus::lemma_menu_wf_rc_change;
use crate::registry::NativeRegistry;
use crate::registry::refs_clear;
use core::mem::swap;

verus! {

/// A native status-bar slot together with the menu and title it displays.
#[derive(Debug)]
pub struct StatusItem {
    pub slot: usize,
    pub menu: Menu,
    pub title: String,
}

impl StatusItem {
    /// The handle belongs to this status item's ownership tree: the slot
    /// itself or the attached menu's tree.
    pub open spec fn owns(self, h: usize) -> bool {
        h == self.slot || self.menu.owns(h)
    }

    /// The status item is intact in the store: the slot is exclusively
    /// owned, shows this title, holds exactly one reference — to the
    /// attached menu — and the menu's tree is intact below it.
    pub open spec fn wf(self, reg: NativeRegistry) -> bool {
        &&& reg.has(self.slot)
        &&& reg.obj(self.slot).kind is SlotObj
        &&& reg.obj(self.slot).retain_count == 1
        &&& reg.obj(self.slot).title@ == self.title@
        &&& reg.obj(self.slot).children@.len() == 0
        &&& reg.obj(self.slot).submenu is None
        &&& reg.obj(self.slot).target is None
        &&& reg.obj(self.slot).attached_menu == Some(self.menu.handle)
        &&& self.menu.wf(reg, 1)
        &&& !self.menu.owns(self.slot)
    }

    /// Requests a status-bar slot, attaches the menu and sets the initial
    /// title.
    pub fn new(reg: &mut NativeRegistry, title: String, menu: Menu) -> (r: StatusItem)
        requires
            menu.wf(*old(reg), 0),
        ensures
            final(reg).spec_len() == old(reg).spec_len() + 1,
            r.slot as int == old(reg).spec_len(),
            r.title == title,
            r.menu == menu,
            r.wf(*final(reg)),
            forall|h: usize|
                old(reg).has(h) && h != menu.handle ==> final(reg).obj(h) == old(reg).obj(h),
    {
        let slot = reg.alloc_slot(title.clone());
        proof {
            lemma_menu_owns_in_store(menu, *old(reg), 0);
            lemma_menu_wf_frame(menu, *old(reg), *reg, 0);
        }
        let ghost reg1 = *reg;
        reg.attach_menu(slot, menu.handle);
        proof {
            lemma_menu_wf_rc_change(menu, reg1, *reg, 0, 1);
        }
        StatusItem { slot, menu, title }
    }

    /// The attached menu.
    pub fn menu(&self) -> (r: &Menu)
        ensures
            r == self.menu,
    {
        &self.menu
    }

    /// The displayed title.
    pub fn title(&self) -> (r: &String)
        ensures
            r == self.title,
    {
        &self.title
    }

    /// Replaces the displayed title.
    pub fn set_title(&mut self, reg: &mut NativeRegistry, title: String)
        requires
            old(self).wf(*old(reg)),
        ensures
            final(self).slot == old(self).slot,
            final(self).menu == old(self).menu,
            final(self).title == title,
            final(self).wf(*final(reg)),
            final(reg).spec_len() == old(reg).spec_len(),
            final(reg).obj(final(self).slot).title@ == title@,
            forall|h: usize|
                old(reg).has(h) && h != old(self).slot ==> final(reg).obj(h) == old(reg).obj(h),
    {
        reg.set_title_of(self.slot, title.clone());
        self.title = title;
        proof {
            lemma_menu_owns_in_store(self.menu, *old(reg), 1);
            lemma_menu_wf_frame(self.menu, *old(reg), *reg, 1);
        }
    }

    /// Replaces the displayed icon by its symbol name.  Whether the toolkit
    /// can resolve the symbol is the platform layer's precondition; the model
    /// records the request.
    pub fn set_image(&mut self, reg: &mut NativeRegistry, system_image_name: String)
        requires
            old(self).wf(*old(reg)),
        ensures
            *final(self) == *old(self),
            final(self).wf(*final(reg)),
            final(reg).spec_len() == old(reg).spec_len(),
            final(reg).obj(final(self).slot).image == Some(system_image_name),
            forall|h: usize|
                old(reg).has(h) && h != old(self).slot ==> final(reg).obj(h) == old(reg).obj(h),
    {
        reg.set_image_of(self.slot, system_image_name);
        proof {
            lemma_menu_owns_in_store(self.menu, *old(reg), 1);
            lemma_menu_wf_frame(self.menu, *old(reg), *reg, 1);
        }
    }

    /// Swaps the attached menu: attach the new one, then tear the old one
    /// down completely.  Afterwards the new menu's handle is the one
    /// attached, and every object of the previously attached tree is fully
    /// released — its native reference count is back to zero, nothing leaks
    /// and nothing dangles.
    pub fn set_menu(&mut self, reg: &mut NativeRegistry, menu: Menu)
        requires
            old(self).wf(*old(reg)),
            menu.wf(*old(reg), 0),
            forall|h: usize| #[trigger] menu.owns(h) ==> !old(self).menu.owns(h),
            !menu.owns(old(self).slot),
        ensures
            final(self).slot == old(self).slot,
            final(self).title == old(self).title,
            final(self).menu == menu,
            final(self).wf(*final(reg)),
            final(reg).spec_len() == old(reg).spec_len(),
            final(reg).obj(old(self).slot).attached_menu == Some(menu.handle),
            forall|h: usize|
                #[trigger] old(self).menu.owns(h) ==> final(reg).has(h) && final(reg).obj(
                    h,
                ).retain_count == 0 && refs_clear(final(reg).obj(h)),
            forall|h: usize|
                old(reg).has(h) && !old(self).menu.owns(h) && h != old(self).slot && h
                    != menu.handle ==> final(reg).obj(h) == old(reg).obj(h),
    {
        let ghost reg0 = *old(reg);
        let ghost oldm = old(self).menu;
        proof {
            assert(oldm.owns(oldm.handle));
            lemma_menu_owns_in_store(oldm, reg0, 1);
            lemma_menu_owns_in_store(menu, reg0, 0);
            assert(menu.owns(menu.handle));
            assert(!oldm.owns(menu.handle));
        }
        reg.detach_menu(self.slot);
        let ghost reg1 = *reg;
        proof {
            assert forall|h: usize| #[trigger] oldm.owns(h) && h != oldm.handle implies reg0.has(h)
                && reg1.has(h) && reg1.obj(h) == reg0.obj(h) by {
                assert(h != old(self).slot);
            }
            lemma_menu_wf_rc_change(oldm, reg0, reg1, 1, 0);
            lemma_menu_wf_frame(menu, reg0, reg1, 0);
        }
        reg.attach_menu(self.slot, menu.handle);
        let ghost reg2 = *reg;
        proof {
            lemma_menu_wf_rc_change(menu, reg1, reg2, 0, 1);
            assert forall|h: usize| #[trigger] oldm.owns(h) implies reg1.has(h) && reg2.has(h)
                && reg2.obj(h) == reg1.obj(h) by {
                assert(h != old(self).slot);
                assert(h != menu.handle);
            }
            lemma_menu_wf_frame(oldm, reg1, reg2, 0);
        }
        let mut incoming = menu;
        swap(&mut self.menu, &mut incoming);
        let outgoing = incoming;
        outgoing.dispose(reg);
        proof {
            assert(!oldm.owns(old(self).slot));
            assert forall|h: usize| #[trigger] menu.owns(h) implies reg2.has(h) && reg.has(h)
                && reg.obj(h) == reg2.obj(h) by {
                assert(!oldm.owns(h));
            }
            lemma_menu_wf_frame(menu, reg2, *reg, 1);
        }
    }

    /// Tears the status item down: detach the menu, tear its tree down,
    /// then release the slot.  Every handle of the item's ownership tree is
    /// fully released; everything else is untouched.
    pub fn dispose(self, reg: &mut NativeRegistry)
        requires
            self.wf(*old(reg)),
        ensures
            final(reg).spec_len() == old(reg).spec_len(),
            forall|h: usize|
                #[trigger] self.owns(h) ==> final(reg).has(h) && final(reg).obj(h).retain_count
                    == 0 && refs_clear(final(reg).obj(h)),
            forall|h: usize|
                old(reg).has(h) && !self.owns(h) ==> final(reg).obj(h) == old(reg).obj(h),
    {
        let ghost this = self;
        let ghost reg0 = *old(reg);
        let StatusItem { slot, menu, title: _ } = self;
        proof {
            lemma_menu_owns_in_store(this.menu, reg0, 1);
        }
        reg.detach_menu(slot);
        let ghost reg1 = *reg;
        proof {
            assert forall|h: usize| #[trigger] this.menu.owns(h) && h != this.menu.handle implies
                reg0.has(h) && reg1.has(h) && reg1.obj(h) == reg0.obj(h) by {
                assert(h != this.slot);
            }
            lemma_menu_wf_rc_change(this.menu, reg0, reg1, 1, 0);
        }
        menu.dispose(reg);
        proof {
            assert(!this.menu.owns(this.slot));
        }
        reg.release(slot);
    }
}

} // verus!
