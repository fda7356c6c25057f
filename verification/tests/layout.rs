use egui_tiles::{Container, Tile, TileId, Tiles, Tree};
use thirdeye::layout::{add_pane, avoid_empty_layout, initial_layout, seed_layout};
use thirdeye::panes::{About, NoStorage, Pane, Welcome};
use thirdeye::persistence::PersistenceError;

fn welcome() -> Pane {
    Pane::Welcome(Welcome {})
}

fn about() -> Pane {
    Pane::About(About {})
}

fn children_of(tree: &Tree<Pane>, id: u64) -> Vec<u64> {
    match tree.tiles.get(TileId::from_u64(id)) {
        Some(Tile::Container(container)) => container.children().map(|child| child.0).collect(),
        _ => panic!("tile {id} is no container"),
    }
}

fn active_tab_of(tree: &Tree<Pane>, id: u64) -> Option<u64> {
    match tree.tiles.get(TileId::from_u64(id)) {
        Some(Tile::Container(Container::Tabs(tabs))) => tabs.active.map(|child| child.0),
        _ => panic!("tile {id} is no tab group"),
    }
}

fn pane_at(tree: &Tree<Pane>, id: u64) -> Option<Pane> {
    tree.tiles.get_pane(&TileId::from_u64(id)).copied()
}

#[test]
fn seeded_layout_is_one_tab_group_with_one_tab() {
    let tree = seed_layout(about());
    assert_eq!(tree.root, Some(TileId::from_u64(2)));
    assert_eq!(tree.tiles.len(), 2);
    assert_eq!(pane_at(&tree, 1), Some(about()));
    assert_eq!(children_of(&tree, 2), vec![1]);
    assert_eq!(active_tab_of(&tree, 2), Some(1));
}

#[test]
fn seeded_layout_equals_the_one_made_by_hand() {
    assert_eq!(
        seed_layout(welcome()),
        Tree::new_tabs("root_tabs", vec![welcome()])
    );
}

#[test]
fn saved_layout_is_taken_as_it_is() {
    let saved = Tree::new_horizontal("saved", vec![about(), welcome(), about()]);
    assert_eq!(initial_layout(Ok(Some(saved.clone()))), saved);
}

#[test]
fn first_run_layout_is_a_welcome_tab() {
    assert_eq!(initial_layout(Ok(None)), seed_layout(welcome()));
}

#[test]
fn unreadable_layout_is_replaced_by_the_load_error_pane() {
    let broken = Err(PersistenceError::RonSpannedError(
        "4:13: Unexpected variant".to_string(),
    ));
    let tree = initial_layout(broken);
    assert_eq!(tree, seed_layout(Pane::NoStorage(NoStorage {})));
    assert_eq!(tree.tiles.len(), 2);
    assert_eq!(pane_at(&tree, 1), Some(Pane::NoStorage(NoStorage {})));
}

#[test]
fn empty_layout_gets_one_welcome_tile() {
    let mut tree: Tree<Pane> = Tree::empty("emptied");
    avoid_empty_layout(&mut tree);
    let root = tree.root.expect("the layout has a root again");
    assert_eq!(tree.tiles.len(), 1);
    assert_eq!(pane_at(&tree, root.0), Some(welcome()));
}

#[test]
fn layout_emptied_by_closing_tabs_gets_one_welcome_tile() {
    let mut tree = seed_layout(about());
    let root = tree.root.expect("a seeded layout has a root");
    tree.remove_recursively(root);
    tree.root = None;
    assert_eq!(tree.tiles.len(), 0);
    avoid_empty_layout(&mut tree);
    let root = tree.root.expect("the layout has a root again");
    assert_eq!(tree.tiles.len(), 1);
    assert_eq!(pane_at(&tree, root.0), Some(welcome()));
}

#[test]
fn layout_with_a_root_is_left_alone() {
    let mut tree = seed_layout(about());
    let before = tree.clone();
    avoid_empty_layout(&mut tree);
    assert_eq!(tree, before);
    assert_eq!(tree.tiles.len(), 2);
}

#[test]
fn refilling_does_not_reuse_an_identifier() {
    let mut tiles: Tiles<Pane> = Tiles::default();
    tiles.insert(TileId::from_u64(1), Tile::Pane(about()));
    tiles.insert(TileId::from_u64(2), Tile::Pane(about()));
    let mut tree = Tree::new("orphans", TileId::from_u64(1), tiles);
    tree.root = None;
    avoid_empty_layout(&mut tree);
    let root = tree.root.expect("the layout has a root again");
    assert!(root.0 != 1 && root.0 != 2);
    assert_eq!(tree.tiles.len(), 3);
    assert_eq!(pane_at(&tree, root.0), Some(welcome()));
    assert_eq!(pane_at(&tree, 1), Some(about()));
    assert_eq!(pane_at(&tree, 2), Some(about()));
}

#[test]
fn pane_added_to_a_tab_group_becomes_its_open_last_tab() {
    let mut tree = seed_layout(welcome());
    let added = add_pane(&mut tree, 2, about());
    let child = added.expect("tile 2 is a tab group");
    assert!(child != 1 && child != 2);
    assert_eq!(tree.tiles.len(), 3);
    assert_eq!(pane_at(&tree, child), Some(about()));
    assert_eq!(pane_at(&tree, 1), Some(welcome()));
    assert_eq!(children_of(&tree, 2), vec![1, child]);
    assert_eq!(active_tab_of(&tree, 2), Some(child));
    assert_eq!(tree.root, Some(TileId::from_u64(2)));
}

#[test]
fn two_panes_added_come_in_order() {
    let mut tree = seed_layout(welcome());
    let first = add_pane(&mut tree, 2, about()).expect("tile 2 is a tab group");
    let second = add_pane(&mut tree, 2, welcome()).expect("tile 2 is a tab group");
    assert!(first != second);
    assert_eq!(children_of(&tree, 2), vec![1, first, second]);
    assert_eq!(active_tab_of(&tree, 2), Some(second));
    assert_eq!(pane_at(&tree, first), Some(about()));
    assert_eq!(pane_at(&tree, second), Some(welcome()));
}

#[test]
fn pane_added_to_a_split_becomes_its_last_child() {
    let mut tree = Tree::new_horizontal("split", vec![welcome(), welcome()]);
    let child = add_pane(&mut tree, 3, about()).expect("tile 3 is a split");
    assert_eq!(children_of(&tree, 3), vec![1, 2, child]);
    assert_eq!(pane_at(&tree, child), Some(about()));
    assert_eq!(tree.tiles.len(), 4);
}

#[test]
fn pane_added_to_a_grid_becomes_its_last_child() {
    let mut tree = Tree::new_grid("grid", vec![welcome(), welcome()]);
    let child = add_pane(&mut tree, 3, about()).expect("tile 3 is a grid");
    assert_eq!(children_of(&tree, 3), vec![1, 2, child]);
    assert_eq!(pane_at(&tree, child), Some(about()));
}

#[test]
fn pane_for_a_missing_parent_is_dropped() {
    let mut tree = seed_layout(welcome());
    let before = tree.clone();
    assert_eq!(add_pane(&mut tree, 999, about()), None);
    assert_eq!(tree, before);
    assert_eq!(tree.tiles.len(), 2);
}

#[test]
fn pane_for_a_leaf_parent_is_dropped() {
    let mut tree = seed_layout(welcome());
    let before = tree.clone();
    assert_eq!(add_pane(&mut tree, 1, about()), None);
    assert_eq!(tree, before);
    assert_eq!(tree.tiles.len(), 2);
}

#[test]
fn pane_for_an_empty_layout_is_dropped() {
    let mut tree: Tree<Pane> = Tree::empty("emptied");
    assert_eq!(add_pane(&mut tree, 1, about()), None);
    assert!(tree.is_empty());
    assert_eq!(tree.tiles.len(), 0);
}
