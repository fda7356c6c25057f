//! The panes that can be shown in a tab, and the menu that creates them.

use vstd::prelude::*;

verus! {

/// A kind of pane that can be placed in a tab.
pub trait TEPane {
    /// The text of the default tab name.
    spec fn tab_name(&self) -> Seq<char>;

    /// Get the default name to be used for the tab containing this pane.
    fn default_tab_name(&self) -> (name: String)
        ensures
            name@ == self.tab_name(),
    ;
}

/// The pane shown on first start and whenever the layout has been emptied.
#[derive(Debug, Clone, Copy, PartialEq, Eq, Structural)]
pub struct Welcome {}

/// The pane that names the program and its version.
#[derive(Debug, Clone, Copy, PartialEq, Eq, Structural)]
pub struct About {}

/// The pane shown in place of a layout that could not be restored.
#[derive(Debug, Clone, Copy, PartialEq, Eq, Structural)]
pub struct NoStorage {}

impl TEPane for Welcome {
    open spec fn tab_name(&self) -> Seq<char> {
        "Welcome"@
    }

    fn default_tab_name(&self) -> (name: String) {
        "Welcome".to_owned()
    }
}

impl TEPane for About {
    open spec fn tab_name(&self) -> Seq<char> {
        "About"@
    }

    fn default_tab_name(&self) -> (name: String) {
        "About".to_owned()
    }
}

impl TEPane for NoStorage {
    open spec fn tab_name(&self) -> Seq<char> {
        "Load error"@
    }

    fn default_tab_name(&self) -> (name: String) {
        "Load error".to_owned()
    }
}

/// Any pane that a tab can hold.
#[derive(Debug, Clone, Copy, PartialEq, Eq, Structural)]
pub enum Pane {
    Welcome(Welcome),
    About(About),
    NoStorage(NoStorage),
}

impl TEPane for Pane {
    open spec fn tab_name(&self) -> Seq<char> {
        match *self {
            Pane::Welcome(pane) => pane.tab_name(),
            Pane::About(pane) => pane.tab_name(),
            Pane::NoStorage(pane) => pane.tab_name(),
        }
    }

    fn default_tab_name(&self) -> (name: String) {
        match self {
            Pane::Welcome(pane) => pane.default_tab_name(),
            Pane::About(pane) => pane.default_tab_name(),
            Pane::NoStorage(pane) => pane.default_tab_name(),
        }
    }
}

/// A line of the menu that adds a pane: the label of its button and the
/// pane that it makes.
#[derive(Debug, Clone, Copy)]
pub struct MenuEntry {
    pub name: &'static str,
    pub pane: Pane,
}

/// The panes that users can add, in the order of the menu.
pub open spec fn creatable() -> Seq<(Seq<char>, Pane)> {
    seq![("Welcome"@, Pane::Welcome(Welcome {})), ("About"@, Pane::About(About {}))]
}

/// The label and the pane of a menu entry.
pub open spec fn entry_view(entry: MenuEntry) -> (Seq<char>, Pane) {
    (entry.name@, entry.pane)
}

/// The panes that users can add, in the order of the menu.
pub fn user_creatable_panes() -> (entries: Vec<MenuEntry>)
    ensures
        entries@.map_values(|entry: MenuEntry| entry_view(entry)) == creatable(),
{
    let mut entries: Vec<MenuEntry> = Vec::new();
    entries.push(MenuEntry { name: "Welcome", pane: Pane::Welcome(Welcome {}) });
    entries.push(MenuEntry { name: "About", pane: Pane::About(About {}) });
    assert(entries@.map_values(|entry: MenuEntry| entry_view(entry)) =~= creatable());
    entries
}

/// The first of the buttons `from`, `from + 1`, ... below `count` that was
/// clicked. A button that `clicked` does not tell of was not clicked.
pub open spec fn first_clicked(clicked: Seq<bool>, from: int, count: int) -> Option<int>
    decreases count - from,
{
    if from >= count || from >= clicked.len() {
        None
    } else if clicked[from] {
        Some(from)
    } else {
        first_clicked(clicked, from + 1, count)
    }
}

/// The pane that the menu makes when its buttons were clicked as `clicked`
/// tells, button by button in the order of the menu: that of the first
/// button clicked, and none where none was.
pub open spec fn menu_choice(clicked: Seq<bool>) -> Option<Pane> {
    match first_clicked(clicked, 0, creatable().len() as int) {
        Some(i) => Some(creatable()[i].1),
        None => None,
    }
}

/// Settle one showing of the menu for adding a new tab, given for each of
/// its buttons whether it was clicked: a fresh pane of the first kind
/// that was asked for, if any.
pub fn new_pane_menu_ui(clicked: &Vec<bool>) -> (pane: Option<Pane>)
    ensures
        pane == menu_choice(clicked@),
{
    let entries = user_creatable_panes();
    let ghost views = entries@.map_values(|entry: MenuEntry| entry_view(entry));
    let mut i: usize = 0;
    while i < entries.len() && i < clicked.len()
        invariant
            i <= entries.len(),
            views == creatable(),
            views == entries@.map_values(|entry: MenuEntry| entry_view(entry)),
            first_clicked(clicked@, 0, entries.len() as int) == first_clicked(
                clicked@,
                i as int,
                entries.len() as int,
            ),
        decreases entries.len() - i,
    {
        if clicked[i] {
            assert(views[i as int] == entry_view(entries[i as int]));
            return Some(entries[i].pane);
        }
        i += 1;
    }
    None
}

} // verus!
