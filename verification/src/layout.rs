//! The tile layout: how it is seeded, kept from being empty, and grown.

use vstd::prelude::*;
use egui_tiles::Tree;
use crate::panes::{NoStorage, Pane, Welcome};
use crate::persistence::PersistenceError;
use crate::tiles::{
    add_child, insert_pane, is_empty, new_tabs, set_active, set_root, tabs_tiles, tile_kind,
    tree_id_bound, tree_root, tree_tiles, TileKind, TileView,
};

verus! {

/// The identifier that `egui` knows the root tab group of a seeded layout by.
pub const ROOT_TABS_ID: &'static str = "root_tabs";

/// Whether `tree` is one tab group whose only tab holds `pane`: the pane is
/// tile 1, the tab group is tile 2 and the root, and the tab is open.
pub open spec fn is_seed_of(tree: Tree<Pane>, pane: Pane) -> bool {
    &&& tree_root(tree) == Some(2u64)
    &&& tree_tiles(tree) =~= map![
        1u64 => TileView::Pane(pane),
        2u64 => TileView::Tabs { children: seq![1u64], active: Some(1u64) },
    ]
    &&& tree_id_bound(tree) == 3
}

/// Make a layout of one tab group with a single tab that holds `pane`.
pub fn seed_layout(pane: Pane) -> (tree: Tree<Pane>)
    ensures
        is_seed_of(tree, pane),
{
    let mut panes: Vec<Pane> = Vec::new();
    panes.push(pane);
    let tree = new_tabs(ROOT_TABS_ID, panes);
    proof {
        assert(Seq::new(1, |i: int| (i + 1) as u64) =~= seq![1u64]);
    }
    tree
}

/// The layout to start with, given what loading the saved layout came to.
///
/// A saved layout is taken as it is. With none saved the layout is seeded
/// with the welcome pane. A saved layout that cannot be read is given up as
/// a whole: a single pane that reports the failure takes its place.
pub fn initial_layout(saved: Result<Option<Tree<Pane>>, PersistenceError>) -> (tree: Tree<Pane>)
    ensures
        match saved {
            Ok(Some(layout)) => tree == layout,
            Ok(None) => is_seed_of(tree, Pane::Welcome(Welcome {})),
            Err(_) => is_seed_of(tree, Pane::NoStorage(NoStorage {})),
        },
{
    match saved {
        Ok(Some(layout)) => layout,
        Ok(None) => seed_layout(Pane::Welcome(Welcome {})),
        Err(_) => seed_layout(Pane::NoStorage(NoStorage {})),
    }
}

/// Whether `after` is `before` with one new tile that holds the welcome pane
/// and is the root.
pub open spec fn refilled(before: Tree<Pane>, after: Tree<Pane>) -> bool {
    &&& tree_root(after) matches Some(id)
    &&& !tree_tiles(before).dom().contains(id)
    &&& tree_tiles(after) =~= tree_tiles(before).insert(
        id,
        TileView::Pane(Pane::Welcome(Welcome {})),
    )
    &&& tree_id_bound(after) <= tree_id_bound(before) + 1
}

/// Check whether the layout is empty, and add a welcome pane as its root if
/// so. A layout with a root is left alone.
pub fn avoid_empty_layout(tree: &mut Tree<Pane>)
    requires
        tree_root(*old(tree)) is None ==> tree_id_bound(*old(tree)) < u64::MAX,
    ensures
        tree_root(*final(tree)) is Some,
        tree_root(*old(tree)) is Some ==> *final(tree) == *old(tree),
        tree_root(*old(tree)) is None ==> refilled(*old(tree), *final(tree)),
{
    if is_empty(tree) {
        let id = insert_pane(tree, Pane::Welcome(Welcome {}));
        set_root(tree, id);
    }
}

/// Once every tile is gone, refilling leaves exactly one tile: the root,
/// holding the welcome pane.
pub proof fn lemma_refill_restores_one_welcome_tile(before: Tree<Pane>, after: Tree<Pane>)
    requires
        tree_tiles(before).dom() =~= Set::<u64>::empty(),
        refilled(before, after),
    ensures
        tree_root(after) is Some,
        tree_tiles(after).dom() =~= set![tree_root(after)->Some_0],
        tree_tiles(after)[tree_root(after)->Some_0] == TileView::Pane(Pane::Welcome(Welcome {})),
{
}

/// What adding a pane under `parent` does to the tiles, given the fresh
/// identifier `child` of the new leaf: the leaf is stored, appended to the
/// children of `parent` and, where `parent` is a tab group, made its open tab.
pub open spec fn tiles_with_pane(
    tiles: Map<u64, TileView>,
    parent: u64,
    child: u64,
    pane: Pane,
) -> Map<u64, TileView> {
    tiles.insert(child, TileView::Pane(pane)).insert(
        parent,
        tiles[parent].with_child(child).with_active(child),
    )
}

/// Whether `parent` names a tile that can take children.
pub open spec fn is_container_of(tiles: Map<u64, TileView>, parent: u64) -> bool {
    tiles.dom().contains(parent) && tiles[parent].is_container()
}

/// Whether `after` is `before` with `pane` added under the container
/// `parent` as the new tile `child`, and nothing else changed.
pub open spec fn pane_added(
    before: Tree<Pane>,
    parent: u64,
    child: u64,
    pane: Pane,
    after: Tree<Pane>,
) -> bool {
    &&& !tree_tiles(before).dom().contains(child)
    &&& tree_tiles(after) =~= tiles_with_pane(tree_tiles(before), parent, child, pane)
    &&& tree_root(after) == tree_root(before)
    &&& tree_id_bound(after) <= tree_id_bound(before) + 1
}

/// Insert `pane` as a new leaf under the tile `parent`.
///
/// Where `parent` names a container the new leaf becomes its last child,
/// and its open tab if it is a tab group; the identifier of the leaf is
/// returned. Where `parent` names a leaf or nothing at all the tree is left
/// exactly as it was and `None` is returned.
pub fn add_pane(tree: &mut Tree<Pane>, parent: u64, pane: Pane) -> (added: Option<u64>)
    requires
        is_container_of(tree_tiles(*old(tree)), parent) ==> tree_id_bound(*old(tree)) < u64::MAX,
    ensures
        added is Some <==> is_container_of(tree_tiles(*old(tree)), parent),
        match added {
            Some(child) => pane_added(*old(tree), parent, child, pane, *final(tree)),
            None => *final(tree) == *old(tree),
        },
{
    let kind = tile_kind(tree, parent);
    match kind {
        TileKind::Missing | TileKind::Pane => None,
        TileKind::Tabs => {
            let child = insert_pane(tree, pane);
            add_child(tree, parent, child);
            set_active(tree, parent, child);
            Some(child)
        },
        TileKind::Linear | TileKind::Grid => {
            let child = insert_pane(tree, pane);
            add_child(tree, parent, child);
            Some(child)
        },
    }
}

} // verus!
