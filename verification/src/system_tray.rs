//! The system-tray descriptor and the controller that owns the single
//! native status item.
//!
//! A `SystemTray` describes what the tray should show: raw icon bytes in a
//! host-supported image format and an ordered menu description. Initializing
//! it yields a `TrayController`, the owner of exactly one status item with
//! the built menu attached. The menu is rebuilt wholesale on each change and
//! swapped atomically: a failed rebuild leaves the previously attached menu
//! in place, never a status item without a menu.

use vstd::prelude::*;

use crate::error::OsError;
use crate::menu::{
    build_menu, item_built_from, menu_built_from, menu_ids_unique, MenuItem, NativeMenuItem,
};

verus! {

/// Edge, in points, of the fixed square icon footprint bound to the status
/// item.
pub const ICON_EDGE: u64 = 18;

/// The descriptor a tray is built from: opaque icon bytes and the ordered
/// menu items.
pub struct SystemTray {
    pub icon: Vec<u8>,
    pub items: Vec<MenuItem>,
}

/// Owns the single native status item: its icon bytes and the currently
/// attached native-menu plan.
///
/// The status item is created exactly once, at initialization, and lives as
/// long as the controller; `attached_menu` is `Some` from initialization on.
pub struct TrayController {
    pub status_item_live: bool,
    pub icon: Vec<u8>,
    pub attached_menu: Option<Vec<NativeMenuItem>>,
}

impl TrayController {
    /// A controller is well formed when its status item is live and a menu
    /// is attached.
    pub open spec fn wf(&self) -> bool {
        &&& self.status_item_live
        &&& self.attached_menu is Some
    }

    /// The currently attached menu plan.
    pub open spec fn menu(&self) -> Seq<NativeMenuItem> {
        self.attached_menu->0@
    }

    /// Rebuild the menu from `items` and attach it, wholesale.
    ///
    /// The swap is atomic from the caller's perspective: on success the new
    /// menu replaces the old one entirely; on failure (colliding custom
    /// ids) the controller — status item and previously attached menu — is
    /// left exactly as it was. In particular a live status item is never
    /// left without a menu attached.
    pub fn rebuild_menu(&mut self, items: &Vec<MenuItem>) -> (r: Result<(), OsError>)
        ensures
            r is Ok <==> menu_ids_unique(items@),
            r is Ok ==> final(self).status_item_live == old(self).status_item_live
                && final(self).icon == old(self).icon
                && final(self).attached_menu is Some
                && menu_built_from(final(self).menu(), items@),
            r is Err ==> *final(self) == *old(self) && r == Err::<(), OsError>(
                OsError::DuplicateMenuItemId,
            ),
            old(self).wf() ==> final(self).wf(),
    {
        match build_menu(items) {
            Ok(menu) => {
                self.attached_menu = Some(menu);
                Ok(())
            },
            Err(e) => Err(e),
        }
    }
}

/// Copy a byte vector.
fn copy_bytes(v: &Vec<u8>) -> (r: Vec<u8>)
    ensures
        r@ == v@,
{
    let n = v.len();
    let mut r: Vec<u8> = Vec::new();
    let mut i: usize = 0;
    while i < n
        invariant
            n == v@.len(),
            i <= n,
            r@ == v@.subrange(0, i as int),
        decreases n - i,
    {
        r.push(v[i]);
        proof {
            assert(v@.subrange(0, i + 1) =~= v@.subrange(0, i as int).push(v@[i as int]));
        }
        i = i + 1;
    }
    proof {
        assert(v@.subrange(0, n as int) =~= v@);
    }
    r
}

impl SystemTray {
    /// Describe a tray: icon bytes and the ordered menu items.
    pub fn new(icon: Vec<u8>, items: Vec<MenuItem>) -> (t: SystemTray)
        ensures
            t.icon == icon,
            t.items == items,
    {
        SystemTray { icon, items }
    }

    /// Initialize the tray: acquire the status item, bind the icon image,
    /// build the menu and attach it.
    ///
    /// The host reports whether its status-bar subsystem was available and
    /// whether it could construct an image from the icon bytes; those two
    /// outcomes are passed in as plain values. Initialization fails — and
    /// leaves no partial status item behind — exactly when the status bar
    /// was unavailable, the image could not be constructed, or two custom
    /// menu items collide on one id; each failure names its cause.
    pub fn initialize(&self, status_bar_available: bool, image_ok: bool) -> (r: Result<
        TrayController,
        OsError,
    >)
        ensures
            r is Ok <==> status_bar_available && image_ok && menu_ids_unique(self.items@),
            !status_bar_available ==> r == Err::<TrayController, OsError>(
                OsError::StatusBarUnavailable,
            ),
            status_bar_available && !image_ok ==> r == Err::<TrayController, OsError>(
                OsError::ImageConstructionFailed,
            ),
            status_bar_available && image_ok && !menu_ids_unique(self.items@) ==> r == Err::<
                TrayController,
                OsError,
            >(OsError::DuplicateMenuItemId),
            r matches Ok(c) ==> c.wf() && c.icon@ == self.icon@ && menu_built_from(
                c.menu(),
                self.items@,
            ),
    {
        if !status_bar_available {
            return Err(OsError::StatusBarUnavailable);
        }
        if !image_ok {
            return Err(OsError::ImageConstructionFailed);
        }
        match build_menu(&self.items) {
            Ok(menu) => Ok(
                TrayController {
                    status_item_live: true,
                    icon: copy_bytes(&self.icon),
                    attached_menu: Some(menu),
                },
            ),
            Err(e) => Err(e),
        }
    }
}

/// Two built native items agree on everything observable: variant, id,
/// title text and parsed key equivalent.
pub open spec fn native_items_alike(a: NativeMenuItem, b: NativeMenuItem) -> bool {
    match (a, b) {
        (
            NativeMenuItem::Custom { id: id_a, title: title_a, key_equivalent: key_a },
            NativeMenuItem::Custom { id: id_b, title: title_b, key_equivalent: key_b },
        ) => {
            &&& id_a == id_b
            &&& title_a@ == title_b@
            &&& match (key_a, key_b) {
                (Some(ka), Some(kb)) => ka.key@ == kb.key@ && ka.masks == kb.masks,
                (None, None) => true,
                _ => false,
            }
        },
        (
            NativeMenuItem::Placeholder { title: title_a },
            NativeMenuItem::Placeholder { title: title_b },
        ) => title_a@ == title_b@,
        _ => false,
    }
}

/// Law (round trip): a build and a rebuild from identical descriptors yield
/// menus whose entries agree, position by position, on variant, id, title
/// and key equivalent — building is idempotent given identical input.
pub proof fn lemma_build_round_trip(
    first: Seq<NativeMenuItem>,
    second: Seq<NativeMenuItem>,
    items: Seq<MenuItem>,
)
    requires
        menu_built_from(first, items),
        menu_built_from(second, items),
    ensures
        first.len() == second.len(),
        forall|j: int| 0 <= j < first.len() ==> native_items_alike(#[trigger] first[j], second[j]),
{
    assert forall|j: int| 0 <= j < first.len() implies native_items_alike(
        #[trigger] first[j],
        second[j],
    ) by {
        assert(item_built_from(first[j], items[j]));
        assert(item_built_from(second[j], items[j]));
    }
}

} // verus!
