//! The tile tree of `egui_tiles`, as far as the layout makes use of it.
//!
//! The tree is kept by `egui_tiles`. What this crate knows of a tree is
//! written down as three ghost readings of it ([`tree_tiles`],
//! [`tree_root`], [`tree_id_bound`]) and a handful of small functions that
//! call into `egui_tiles` and say, over those readings, what the call does.
//! These statements are taken from the source of `egui_tiles` and are not
//! proved.

use vstd::prelude::*;
use egui_tiles::{Container, Tile, TileId, Tree};
use crate::panes::Pane;

verus! {

/// Makes `egui_tiles::Tree` known as a type. Nothing can be seen inside a
/// tree but through the readings and the calls below.
#[verifier::external_type_specification]
#[verifier::external_body]
#[verifier::reject_recursive_types(P)]
pub struct ExTree<P>(egui_tiles::Tree<P>);

/// What one tile of a tree holds.
pub enum TileView {
    /// A leaf with its pane.
    Pane(Pane),
    /// A tab group: its tabs in order, and the tab that is open.
    Tabs { children: Seq<u64>, active: Option<u64> },
    /// A horizontal or vertical split with its children in order.
    Linear { children: Seq<u64> },
    /// A grid with its children in row-major order, holes left out.
    Grid { children: Seq<u64> },
}

impl TileView {
    /// Whether the tile can take children.
    pub open spec fn is_container(self) -> bool {
        !(self is Pane)
    }

    /// The tile with `child` appended to its children; a leaf stays as it is.
    pub open spec fn with_child(self, child: u64) -> TileView {
        match self {
            TileView::Pane(pane) => TileView::Pane(pane),
            TileView::Tabs { children, active } => TileView::Tabs {
                children: children.push(child),
                active,
            },
            TileView::Linear { children } => TileView::Linear { children: children.push(child) },
            TileView::Grid { children } => TileView::Grid { children: children.push(child) },
        }
    }

    /// The tab group with `child` as its open tab; any other tile stays as it is.
    pub open spec fn with_active(self, child: u64) -> TileView {
        match self {
            TileView::Tabs { children, active } => TileView::Tabs { children, active: Some(child) },
            other => other,
        }
    }
}

/// The tiles of a tree by identifier: `Tree::tiles`, each `TileId` taken as
/// the number it wraps.
pub uninterp spec fn tree_tiles(tree: Tree<Pane>) -> Map<u64, TileView>;

/// The root of a tree, `Tree::root`; `None` for an empty tree.
pub uninterp spec fn tree_root(tree: Tree<Pane>) -> Option<u64>;

/// A number that no identifier in use reaches and that the tree's counter
/// for fresh identifiers has not passed: the larger of that counter and of
/// one more than the largest identifier in use.
pub uninterp spec fn tree_id_bound(tree: Tree<Pane>) -> nat;

/// What kind of tile an identifier names.
#[derive(Debug, Clone, Copy, PartialEq, Eq, Structural)]
pub enum TileKind {
    /// No tile has this identifier.
    Missing,
    Pane,
    Tabs,
    Linear,
    Grid,
}

/// The kind of the tile that `id` names among `tiles`.
pub open spec fn kind_of(tiles: Map<u64, TileView>, id: u64) -> TileKind {
    if !tiles.dom().contains(id) {
        TileKind::Missing
    } else {
        match tiles[id] {
            TileView::Pane(_) => TileKind::Pane,
            TileView::Tabs { .. } => TileKind::Tabs,
            TileView::Linear { .. } => TileKind::Linear,
            TileView::Grid { .. } => TileKind::Grid,
        }
    }
}

/// The tiles of a tree made of one tab group over `panes`: the panes take the
/// identifiers from 1 on, in order, and the tab group the one after them; the
/// first tab, if there is one, is open.
pub open spec fn tabs_tiles(panes: Seq<Pane>) -> Map<u64, TileView> {
    Map::new(
        |id: u64| 1 <= id <= panes.len() + 1,
        |id: u64|
            if id <= panes.len() {
                TileView::Pane(panes[id - 1])
            } else {
                TileView::Tabs {
                    children: Seq::new(panes.len(), |i: int| (i + 1) as u64),
                    active: if panes.len() > 0 {
                        Some(1u64)
                    } else {
                        None
                    },
                }
            },
    )
}

/// Calls `Tree::new_tabs`. It starts from no tiles and a counter of 1, puts
/// each pane in with `insert_pane`, then the tab group over them, and makes
/// that group the root.
#[verifier::external_body]
pub(crate) fn new_tabs(id: &'static str, panes: Vec<Pane>) -> (tree: Tree<Pane>)
    requires
        panes.len() + 2 <= u64::MAX,
    ensures
        tree_tiles(tree) == tabs_tiles(panes@),
        tree_root(tree) == Some((panes.len() + 1) as u64),
        tree_id_bound(tree) == panes.len() + 2,
{
    Tree::new_tabs(id, panes)
}

/// Calls `Tree::is_empty`, which tells whether the tree has no root.
#[verifier::external_body]
pub(crate) fn is_empty(tree: &Tree<Pane>) -> (empty: bool)
    ensures
        empty == (tree_root(*tree) is None),
{
    tree.is_empty()
}

/// Calls `Tiles::insert_pane` on the tree's tiles. It takes the first
/// identifier from the counter on that is not in use, stores the pane under it
/// and moves the counter past it. The counter is a `u64` that is only ever
/// incremented, so the call is kept away from a tree that has used them up.
#[verifier::external_body]
pub(crate) fn insert_pane(tree: &mut Tree<Pane>, pane: Pane) -> (id: u64)
    requires
        tree_id_bound(*old(tree)) < u64::MAX,
    ensures
        !tree_tiles(*old(tree)).dom().contains(id),
        tree_tiles(*final(tree)) == tree_tiles(*old(tree)).insert(id, TileView::Pane(pane)),
        tree_root(*final(tree)) == tree_root(*old(tree)),
        tree_id_bound(*final(tree)) <= tree_id_bound(*old(tree)) + 1,
{
    tree.tiles.insert_pane(pane).0
}

/// Assigns `Tree::root`, a public field.
#[verifier::external_body]
pub(crate) fn set_root(tree: &mut Tree<Pane>, id: u64)
    ensures
        tree_root(*final(tree)) == Some(id),
        tree_tiles(*final(tree)) == tree_tiles(*old(tree)),
        tree_id_bound(*final(tree)) == tree_id_bound(*old(tree)),
{
    tree.root = Some(TileId::from_u64(id));
}

/// Calls `Tiles::get` and tells the variants of what it finds apart.
#[verifier::external_body]
pub(crate) fn tile_kind(tree: &Tree<Pane>, id: u64) -> (kind: TileKind)
    ensures
        kind == kind_of(tree_tiles(*tree), id),
{
    match tree.tiles.get(TileId::from_u64(id)) {
        None => TileKind::Missing,
        Some(Tile::Pane(_)) => TileKind::Pane,
        Some(Tile::Container(Container::Tabs(_))) => TileKind::Tabs,
        Some(Tile::Container(Container::Linear(_))) => TileKind::Linear,
        Some(Tile::Container(Container::Grid(_))) => TileKind::Grid,
    }
}

/// Calls `Container::add_child` on the container that `parent` names, which
/// appends `child` to its children.
#[verifier::external_body]
pub(crate) fn add_child(tree: &mut Tree<Pane>, parent: u64, child: u64)
    requires
        tree_tiles(*old(tree)).dom().contains(parent),
        tree_tiles(*old(tree))[parent].is_container(),
    ensures
        tree_tiles(*final(tree)) == tree_tiles(*old(tree)).insert(
            parent,
            tree_tiles(*old(tree))[parent].with_child(child),
        ),
        tree_root(*final(tree)) == tree_root(*old(tree)),
        tree_id_bound(*final(tree)) == tree_id_bound(*old(tree)),
{
    if let Some(Tile::Container(container)) = tree.tiles.get_mut(TileId::from_u64(parent)) {
        container.add_child(TileId::from_u64(child));
    }
}

/// Calls `Tabs::set_active` on the tab group that `parent` names, which makes
/// `child` its open tab.
#[verifier::external_body]
pub(crate) fn set_active(tree: &mut Tree<Pane>, parent: u64, child: u64)
    requires
        tree_tiles(*old(tree)).dom().contains(parent),
        tree_tiles(*old(tree))[parent] is Tabs,
    ensures
        tree_tiles(*final(tree)) == tree_tiles(*old(tree)).insert(
            parent,
            tree_tiles(*old(tree))[parent].with_active(child),
        ),
        tree_root(*final(tree)) == tree_root(*old(tree)),
        tree_id_bound(*final(tree)) == tree_id_bound(*old(tree)),
{
    if let Some(Tile::Container(Container::Tabs(tabs))) = tree.tiles.get_mut(
        TileId::from_u64(parent),
    ) {
        tabs.set_active(TileId::from_u64(child));
    }
}

} // verus!
