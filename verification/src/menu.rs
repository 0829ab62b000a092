//! The platform-neutral menu description and its translation into an
//! ordered plan of native menu items.
//!
//! A menu is an ordered sequence of items: custom items carrying an id, a
//! display name and an optional accelerator, or predefined native kinds.
//! Building produces one native item per described item, in the same order;
//! a kind the tray backend does not support degrades to a disabled
//! placeholder instead of failing the build. Custom ids must be unique
//! within one menu description: a build with colliding ids is rejected, so
//! that the host can map an incoming menu-action notification back to
//! exactly one custom item.

use vstd::prelude::*;
use vstd::string::StringExecFns;

use crate::accelerator::{key_spec, masks_spec, parse_accelerator, KeyEquivalent};
use crate::error::OsError;

verus! {

/// A predefined menu-item kind supplied by the host, not by the application.
///
/// The tray backend supports none of these; each degrades to a placeholder.
#[derive(Clone, Copy, Debug, PartialEq, Eq, Structural)]
pub enum NativeMenuItemKind {
    About,
    Hide,
    Services,
    Quit,
    Separator,
}

/// An application-defined menu item.
#[derive(Clone, Debug, PartialEq, Eq)]
pub struct CustomMenuItem {
    /// Unique within one menu description.
    pub id: u32,
    /// The display text.
    pub name: String,
    /// Optional text in the accelerator grammar.
    pub keyboard_accelerator: Option<String>,
}

/// One entry of a menu description.
#[derive(Clone, Debug, PartialEq, Eq)]
pub enum MenuItem {
    Custom(CustomMenuItem),
    Native(NativeMenuItemKind),
}

/// One entry of the built native-menu plan, ready for the host to realize.
#[derive(Clone, Debug, PartialEq, Eq)]
pub enum NativeMenuItem {
    /// A selectable item carrying the custom item's id and name and, when an
    /// accelerator was supplied, its parsed key equivalent.
    Custom { id: u32, title: String, key_equivalent: Option<KeyEquivalent> },
    /// A disabled stand-in for a kind the backend does not support.
    Placeholder { title: String },
}

/// The title every placeholder item carries.
pub open spec fn placeholder_title() -> Seq<char> {
    "Not supported"@
}

/// `n` is exactly what building `m` yields: same id and name for a custom
/// item, with the accelerator parsed by the grammar; a placeholder for a
/// native kind.
pub open spec fn item_built_from(n: NativeMenuItem, m: MenuItem) -> bool {
    match m {
        MenuItem::Custom(c) => match n {
            NativeMenuItem::Custom { id, title, key_equivalent } => {
                &&& id == c.id
                &&& title@ == c.name@
                &&& match c.keyboard_accelerator {
                    Some(a) => match key_equivalent {
                        Some(k) => k.key@ == key_spec(a@) && k.masks == masks_spec(a@),
                        None => false,
                    },
                    None => key_equivalent is None,
                }
            },
            NativeMenuItem::Placeholder { .. } => false,
        },
        MenuItem::Native(_) => match n {
            NativeMenuItem::Placeholder { title } => title@ == placeholder_title(),
            NativeMenuItem::Custom { .. } => false,
        },
    }
}

/// `menu` is, entry by entry and in order, the build of `items`.
pub open spec fn menu_built_from(menu: Seq<NativeMenuItem>, items: Seq<MenuItem>) -> bool {
    &&& menu.len() == items.len()
    &&& forall|j: int| 0 <= j < items.len() ==> item_built_from(#[trigger] menu[j], items[j])
}

/// The ids of the custom items of `items`, in order.
pub open spec fn custom_ids(items: Seq<MenuItem>) -> Seq<u32>
    decreases items.len(),
{
    if items.len() == 0 {
        Seq::empty()
    } else {
        custom_ids(items.drop_last()) + (match items.last() {
            MenuItem::Custom(c) => seq![c.id],
            MenuItem::Native(_) => Seq::<u32>::empty(),
        })
    }
}

/// No value occurs twice.
pub open spec fn ids_unique(ids: Seq<u32>) -> bool {
    forall|p: int, q: int| 0 <= p < q < ids.len() ==> ids[p] != ids[q]
}

/// The custom ids of `items` are pairwise distinct.
pub open spec fn menu_ids_unique(items: Seq<MenuItem>) -> bool {
    ids_unique(custom_ids(items))
}

/// `items[i]` is a custom item with id `id`.
pub open spec fn is_custom_with_id(m: MenuItem, id: u32) -> bool {
    m matches MenuItem::Custom(c) && c.id == id
}

/// The custom ids of `items`, collected in order.
fn collect_custom_ids(items: &Vec<MenuItem>) -> (ids: Vec<u32>)
    ensures
        ids@ == custom_ids(items@),
{
    let n = items.len();
    let mut ids: Vec<u32> = Vec::new();
    let mut i: usize = 0;
    proof {
        assert(items@.subrange(0, 0) =~= Seq::<MenuItem>::empty());
    }
    while i < n
        invariant
            n == items@.len(),
            i <= n,
            ids@ == custom_ids(items@.subrange(0, i as int)),
        decreases n - i,
    {
        proof {
            let pref = items@.subrange(0, i + 1);
            assert(pref.drop_last() =~= items@.subrange(0, i as int));
            assert(pref.last() == items@[i as int]);
        }
        match &items[i] {
            MenuItem::Custom(c) => {
                ids.push(c.id);
                proof {
                    assert(ids@ =~= custom_ids(items@.subrange(0, i as int)) + seq![
                        items@[i as int]->Custom_0.id,
                    ]);
                }
            },
            MenuItem::Native(_) => {
                proof {
                    assert(ids@ =~= custom_ids(items@.subrange(0, i as int))
                        + Seq::<u32>::empty());
                }
            },
        }
        i = i + 1;
    }
    proof {
        assert(items@.subrange(0, n as int) =~= items@);
    }
    ids
}

/// Whether the values of `ids` are pairwise distinct.
fn all_distinct(ids: &Vec<u32>) -> (b: bool)
    ensures
        b == ids_unique(ids@),
{
    let n = ids.len();
    let mut i: usize = 0;
    while i < n
        invariant
            n == ids@.len(),
            i <= n,
            forall|p: int, q: int| 0 <= p < q < n && p < i ==> ids@[p] != ids@[q],
        decreases n - i,
    {
        let mut j: usize = i + 1;
        while j < n
            invariant
                n == ids@.len(),
                i < n,
                i + 1 <= j <= n,
                forall|q: int| i < q < j ==> ids@[i as int] != ids@[q],
            decreases n - j,
        {
            if ids[i] == ids[j] {
                proof {
                    assert(!ids_unique(ids@));
                }
                return false;
            }
            j = j + 1;
        }
        i = i + 1;
    }
    true
}

/// Find the first custom item carrying `id`: how a menu-action notification
/// is mapped back to the item it names.
pub fn menu_action_target(items: &Vec<MenuItem>, id: u32) -> (r: Option<usize>)
    ensures
        match r {
            Some(i) => i < items@.len() && is_custom_with_id(items@[i as int], id) && forall|
                j: int,
            | 0 <= j < i ==> !is_custom_with_id(items@[j], id),
            None => forall|j: int| 0 <= j < items@.len() ==> !is_custom_with_id(items@[j], id),
        },
{
    let n = items.len();
    let mut i: usize = 0;
    while i < n
        invariant
            n == items@.len(),
            i <= n,
            forall|j: int| 0 <= j < i ==> !is_custom_with_id(items@[j], id),
        decreases n - i,
    {
        match &items[i] {
            MenuItem::Custom(c) => {
                if c.id == id {
                    return Some(i);
                }
            },
            MenuItem::Native(_) => {},
        }
        i = i + 1;
    }
    None
}

/// A custom item's id is among the menu's custom ids.
proof fn lemma_custom_ids_contains(items: Seq<MenuItem>, i: int)
    requires
        0 <= i < items.len(),
        items[i] is Custom,
    ensures
        custom_ids(items).contains(items[i]->Custom_0.id),
    decreases items.len(),
{
    let id = items[i]->Custom_0.id;
    let a = custom_ids(items.drop_last());
    if i == items.len() - 1 {
        assert(custom_ids(items) == a + seq![id]);
        assert(custom_ids(items)[a.len() as int] == id);
    } else {
        assert(items.drop_last()[i] == items[i]);
        lemma_custom_ids_contains(items.drop_last(), i);
        let p = choose|p: int| 0 <= p < a.len() && a[p] == id;
        assert(custom_ids(items)[p] == id);
    }
}

/// Law: in a menu description whose custom ids are unique, an id names at
/// most one item — the host can map a menu-action notification back to
/// exactly one custom item.
pub proof fn lemma_action_target_is_unique(items: Seq<MenuItem>, id: u32, i: int, j: int)
    requires
        menu_ids_unique(items),
        0 <= i < items.len(),
        0 <= j < items.len(),
        is_custom_with_id(items[i], id),
        is_custom_with_id(items[j], id),
    ensures
        i == j,
    decreases items.len(),
{
    if i != j {
        let lo = if i < j {
            i
        } else {
            j
        };
        let hi = if i < j {
            j
        } else {
            i
        };
        let a = custom_ids(items.drop_last());
        if hi == items.len() - 1 {
            assert(items.drop_last()[lo] == items[lo]);
            lemma_custom_ids_contains(items.drop_last(), lo);
            let p = choose|p: int| 0 <= p < a.len() && a[p] == id;
            assert(custom_ids(items) == a + seq![id]);
            assert(custom_ids(items)[p] == id);
            assert(custom_ids(items)[a.len() as int] == id);
            assert(!ids_unique(custom_ids(items)));
        } else {
            assert(items.drop_last()[lo] == items[lo]);
            assert(items.drop_last()[hi] == items[hi]);
            assert(menu_ids_unique(items.drop_last())) by {
                let whole = custom_ids(items);
                assert(a.len() <= whole.len() && forall|p: int| 0 <= p < a.len() ==> whole[p]
                    == a[p]);
                assert forall|p: int, q: int| 0 <= p < q < a.len() implies a[p] != a[q] by {
                    assert(whole[p] != whole[q]);
                }
            }
            lemma_action_target_is_unique(items.drop_last(), id, lo, hi);
        }
    }
}

/// The ids carried by a built plan's custom entries, in order.
pub open spec fn native_custom_ids(menu: Seq<NativeMenuItem>) -> Seq<u32>
    decreases menu.len(),
{
    if menu.len() == 0 {
        Seq::empty()
    } else {
        native_custom_ids(menu.drop_last()) + (match menu.last() {
            NativeMenuItem::Custom { id, .. } => seq![id],
            NativeMenuItem::Placeholder { .. } => Seq::<u32>::empty(),
        })
    }
}

/// Law: building preserves the custom ids, in order. The built plan carries
/// exactly the described ids, so with a description whose ids are unique
/// the attached menu's ids are unique too.
pub proof fn lemma_build_preserves_ids(menu: Seq<NativeMenuItem>, items: Seq<MenuItem>)
    requires
        menu_built_from(menu, items),
    ensures
        native_custom_ids(menu) == custom_ids(items),
    decreases items.len(),
{
    if items.len() > 0 {
        assert(menu_built_from(menu.drop_last(), items.drop_last())) by {
            assert(forall|j: int| 0 <= j < items.len() - 1 ==> menu.drop_last()[j] == menu[j]
                && items.drop_last()[j] == items[j]);
        }
        lemma_build_preserves_ids(menu.drop_last(), items.drop_last());
        assert(item_built_from(menu[items.len() - 1], items[items.len() - 1]));
    }
}

/// Build the native-menu plan for `items`: one entry per item, in order.
///
/// The build is rejected, and nothing is produced, exactly when two custom
/// items collide on one id.
pub fn build_menu(items: &Vec<MenuItem>) -> (r: Result<Vec<NativeMenuItem>, OsError>)
    ensures
        r is Ok <==> menu_ids_unique(items@),
        r matches Ok(menu) ==> menu_built_from(menu@, items@),
        r is Err ==> r == Err::<Vec<NativeMenuItem>, OsError>(OsError::DuplicateMenuItemId),
{
    let ids = collect_custom_ids(items);
    if !all_distinct(&ids) {
        return Err(OsError::DuplicateMenuItemId);
    }
    let n = items.len();
    let mut menu: Vec<NativeMenuItem> = Vec::new();
    let mut i: usize = 0;
    while i < n
        invariant
            n == items@.len(),
            i <= n,
            menu@.len() == i,
            forall|j: int| 0 <= j < i ==> item_built_from(#[trigger] menu@[j], items@[j]),
        decreases n - i,
    {
        let built = match &items[i] {
            MenuItem::Custom(c) => {
                let key_equivalent = match &c.keyboard_accelerator {
                    Some(a) => Some(parse_accelerator(a.as_str())),
                    None => None,
                };
                NativeMenuItem::Custom { id: c.id, title: c.name.clone(), key_equivalent }
            },
            MenuItem::Native(_) => NativeMenuItem::Placeholder {
                title: String::from_str("Not supported"),
            },
        };
        menu.push(built);
        i = i + 1;
    }
    Ok(menu)
}

} // verus!
