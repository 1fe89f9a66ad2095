//! Menu-augmentation planning.
//!
//! When a menu-initialization message passes classification, the patch
//! appends a separator and a disabled, text-labeled entry to the live menu.
//! The entry's identifier must not collide with any identifier the host UI
//! framework assigned, so it is recomputed on every event from a snapshot of
//! the menu's current items: one more than the largest existing identifier,
//! where entries carrying the "no identifier" sentinel (submenus) are
//! skipped and an empty menu yields identifier 1.

use vstd::prelude::*;

use crate::Fault;

verus! {

/// The reserved identifier meaning "this entry is a submenu, it has no
/// assignable identifier"; such entries are skipped when computing the next
/// free identifier.
pub const NO_ITEM_ID: u32 = 0xFFFF_FFFF;

/// The label of the appended menu entry.
pub open spec fn menu_item_label() -> Seq<char> {
    "Search with Bing..."@
}

/// Largest identifier among a menu snapshot's entries, submenu sentinels
/// excluded; 0 when no entry carries an identifier.
pub open spec fn max_item_id(ids: Seq<u32>) -> int
    decreases ids.len(),
{
    if ids.len() == 0 {
        0
    } else {
        let rest = max_item_id(ids.drop_last());
        if ids.last() != NO_ITEM_ID && ids.last() > rest {
            ids.last() as int
        } else {
            rest
        }
    }
}

/// The maximum stays below the sentinel, so one past it still fits in `u32`.
pub proof fn lemma_max_item_id_bounds(ids: Seq<u32>)
    ensures
        0 <= max_item_id(ids) < NO_ITEM_ID,
    decreases ids.len(),
{
    if ids.len() > 0 {
        lemma_max_item_id_bounds(ids.drop_last());
    }
}

/// Law: the maximum dominates every identifier on the menu — no entry that
/// carries an identifier exceeds it — so an entry numbered one past it
/// collides with nothing the host framework assigned. This is why the
/// identifier is recomputed from a fresh snapshot on every event rather
/// than cached: menus are rebuilt on every open.
pub proof fn lemma_max_item_id_dominates(ids: Seq<u32>)
    ensures
        forall|i: int| 0 <= i < ids.len() && ids[i] != NO_ITEM_ID ==> ids[i] <= max_item_id(ids),
    decreases ids.len(),
{
    if ids.len() > 0 {
        lemma_max_item_id_dominates(ids.drop_last());
        assert forall|i: int|
            0 <= i < ids.len() && ids[i] != NO_ITEM_ID implies ids[i] <= max_item_id(ids) by {
            if i < ids.len() - 1 {
                assert(ids.drop_last()[i] == ids[i]);
                assert(ids[i] <= max_item_id(ids.drop_last()));
            }
        }
    }
}

/// Largest identifier among the snapshot's non-submenu entries.
#[verifier::loop_isolation(false)]
pub fn menu_max_id(ids: &Vec<u32>) -> (r: u32)
    ensures
        r == max_item_id(ids@),
{
    let mut m: u32 = 0;
    let mut i: usize = 0;
    while i < ids.len()
        invariant
            0 <= i <= ids@.len(),
            m == max_item_id(ids@.take(i as int)),
        decreases ids@.len() - i,
    {
        let id = ids[i];
        proof {
            assert(ids@.take(i + 1).drop_last() =~= ids@.take(i as int));
            assert(ids@.take(i + 1).last() == ids@[i as int]);
            lemma_max_item_id_bounds(ids@.take(i as int));
        }
        if id != NO_ITEM_ID && id > m {
            m = id;
        }
        i = i + 1;
    }
    proof {
        assert(ids@.take(ids@.len() as int) =~= ids@);
    }
    m
}

/// Identifier for the next appended entry: one past the snapshot's maximum,
/// so it collides with no identifier the host framework assigned.
pub fn next_item_id(ids: &Vec<u32>) -> (r: u32)
    ensures
        r == max_item_id(ids@) + 1,
{
    proof {
        lemma_max_item_id_bounds(ids@);
    }
    let m = menu_max_id(ids);
    m + 1
}

/// Where a menu-initialization payload carries the menu handle: two message
/// variants carry it directly, one embeds it behind a pointer-sized field
/// that is dereferenced outside the library (`None` when that field is
/// null).
#[derive(Clone, Copy, Debug, PartialEq, Eq, Structural)]
pub enum MenuHandleSource {
    /// The payload carries the handle itself.
    Direct { handle: u64 },
    /// The payload carries a pointer to the handle; the field's value after
    /// dereferencing, or `None` when the pointer was null.
    Indirect { field: Option<u64> },
}

/// The handle a source resolves to: a null pointer field and a null handle
/// are both rejected as `Fault::Patch`.
pub open spec fn resolve_spec(src: MenuHandleSource) -> Result<u64, Fault> {
    match src {
        MenuHandleSource::Direct { handle } => if handle == 0 {
            Err(Fault::Patch)
        } else {
            Ok(handle)
        },
        MenuHandleSource::Indirect { field } => match field {
            Option::None => Err(Fault::Patch),
            Option::Some(handle) => if handle == 0 {
                Err(Fault::Patch)
            } else {
                Ok(handle)
            },
        },
    }
}

/// Resolves the real menu handle out of a payload's handle source.
pub fn resolve_menu_handle(src: &MenuHandleSource) -> (r: Result<u64, Fault>)
    ensures
        r == resolve_spec(*src),
{
    match src {
        MenuHandleSource::Direct { handle } => {
            if *handle == 0 {
                Err(Fault::Patch)
            } else {
                Ok(*handle)
            }
        },
        MenuHandleSource::Indirect { field } => {
            match field {
                Option::None => Err(Fault::Patch),
                Option::Some(handle) => {
                    if *handle == 0 {
                        Err(Fault::Patch)
                    } else {
                        Ok(*handle)
                    }
                },
            }
        },
    }
}

/// What to append to a live menu: first a separator, then a disabled entry
/// labeled `label` with identifier `item_id`.
#[derive(Clone, Copy, Debug)]
pub struct MenuAppendPlan {
    /// The resolved, nonnull menu handle to append to.
    pub menu: u64,
    /// A visual separator entry precedes the labeled entry.
    pub separator_first: bool,
    /// Identifier of the appended labeled entry.
    pub item_id: u32,
    /// The labeled entry starts disabled.
    pub disabled: bool,
    /// Text of the labeled entry.
    pub label: &'static str,
}

/// Plans the append for a resolved menu and a snapshot of its current item
/// identifiers.
pub fn append_plan(menu: u64, ids: &Vec<u32>) -> (p: MenuAppendPlan)
    requires
        menu != 0,
    ensures
        p.menu == menu,
        p.separator_first,
        p.disabled,
        p.item_id == max_item_id(ids@) + 1,
        p.label@ == menu_item_label(),
{
    let item_id = next_item_id(ids);
    MenuAppendPlan {
        menu,
        separator_first: true,
        item_id,
        disabled: true,
        label: "Search with Bing...",
    }
}

} // verus!
