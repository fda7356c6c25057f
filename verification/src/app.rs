//! The application state and the messages that change it.
//!
//! The state is changed by one message at a time. What a message asks of the
//! world outside (files, the screen, the log) is handed back as an
//! [`Action`] for the caller to perform.

use vstd::prelude::*;
use egui_tiles::Tree;
use crate::journal::Platform;
use crate::layout::{add_pane, initial_layout, is_container_of, is_seed_of, pane_added};
use crate::panes::{NoStorage, Pane, Welcome};
use crate::persistence::PersistenceError;
use crate::settings::{initial_settings, Settings, SettingsDocument, SettingsEditor};
use crate::tiles::{tree_id_bound, tree_tiles};

verus! {

/// An intent to change the application state, queued until the end of the
/// frame.
#[derive(Debug)]
pub enum Message {
    /// Save the settings and the layout.
    AutoSave,
    /// Open `pane` in a new tab under the tile `parent`.
    AddPane { parent: u64, pane: Pane },
    /// Close the settings dialog, with the settings to take over if the
    /// user saved the draft.
    CloseSettingsModal { new_settings: Option<Settings> },
}

/// What the caller is to do once a message has been applied.
#[derive(Debug, Clone, Copy, PartialEq, Eq, Structural)]
pub enum Action {
    /// Write the settings and the layout to their files. A failure is
    /// logged and otherwise ignored.
    SaveData,
    /// Make the live settings take effect: set the theme and repaint.
    ApplySettings,
    /// Log a warning: a pane could not be opened because `parent` names no
    /// container.
    WarnNoContainer { parent: u64 },
}

/// The seconds between two automatic saves.
pub const AUTOSAVE_INTERVAL_SECS: u64 = 30;

/// The name of the file that holds the settings, in the data directory.
pub const SETTINGS_FILE: &'static str = "settings.ron";

/// The name of the file that holds the layout, in the data directory.
pub const LAYOUT_FILE: &'static str = "layout.ron";

/// Application settings, layout and dialog state.
pub struct App {
    /// The live settings.
    pub settings: Settings,
    /// The tiles on screen.
    pub layout: Tree<Pane>,
    /// The draft of the settings dialog while it is open.
    pub settings_editor: Option<SettingsEditor>,
}

/// Whether applying `message` to `before` can give `after` and ask for
/// `action`.
///
/// Saving changes nothing. A pane is added under its parent where that names
/// a container; where it does not, the message is dropped with a warning and
/// nothing changes. Closing the dialog takes over the new settings where
/// there are any and leaves the live ones alone where there are none.
pub open spec fn applies(
    before: App,
    message: Message,
    after: App,
    action: Option<Action>,
) -> bool {
    match message {
        Message::AutoSave => after == before && action == Some(Action::SaveData),
        Message::AddPane { parent, pane } => {
            &&& after.settings == before.settings
            &&& after.settings_editor == before.settings_editor
            &&& if is_container_of(tree_tiles(before.layout), parent) {
                &&& action is None
                &&& exists|child: u64| #[trigger]
                    pane_added(before.layout, parent, child, pane, after.layout)
            } else {
                &&& after.layout == before.layout
                &&& action == Some(Action::WarnNoContainer { parent })
            }
        },
        Message::CloseSettingsModal { new_settings } => {
            &&& after.layout == before.layout
            &&& after.settings_editor is None
            &&& match new_settings {
                Some(settings) => after.settings == settings && action == Some(
                    Action::ApplySettings,
                ),
                None => after.settings == before.settings && action is None,
            }
        },
    }
}

/// The actions asked for so far, with `action` behind them if there is one.
pub open spec fn with_action(actions: Seq<Action>, action: Option<Action>) -> Seq<Action> {
    match action {
        Some(action) => actions.push(action),
        None => actions,
    }
}

/// Whether `message` can take `middle` to `after` and ask for `action`,
/// which makes `actions` of the `earlier` ones.
pub open spec fn applies_last(
    middle: App,
    message: Message,
    after: App,
    action: Option<Action>,
    earlier: Seq<Action>,
    actions: Seq<Action>,
) -> bool {
    applies(middle, message, after, action) && actions == with_action(earlier, action)
}

/// Whether applying `messages` to `before` one after the other, first to
/// last, each to what the one before it left, can give `after` and ask for
/// `actions`, in that order.
pub open spec fn applies_in_order(
    before: App,
    messages: Seq<Message>,
    after: App,
    actions: Seq<Action>,
) -> bool
    decreases messages.len(),
{
    if messages.len() == 0 {
        after == before && actions == Seq::<Action>::empty()
    } else {
        exists|middle: App, earlier: Seq<Action>, action: Option<Action>|
            {
                &&& applies_in_order(before, messages.drop_last(), middle, earlier)
                &&& #[trigger] applies_last(
                    middle,
                    messages.last(),
                    after,
                    action,
                    earlier,
                    actions,
                )
            }
    }
}

/// The number of messages that ask for a pane.
pub open spec fn panes_asked_for(messages: Seq<Message>) -> nat
    decreases messages.len(),
{
    if messages.len() == 0 {
        0
    } else {
        panes_asked_for(messages.drop_last()) + if messages.last() is AddPane {
            1nat
        } else {
            0nat
        }
    }
}

impl App {
    /// Whether the layout has an identifier left for the pane that
    /// `message` may ask for.
    pub open spec fn has_room_for(self, message: Message) -> bool {
        message matches Message::AddPane { parent, .. } ==> is_container_of(
            tree_tiles(self.layout),
            parent,
        ) ==> tree_id_bound(self.layout) < u64::MAX
    }

    /// Whether the layout has an identifier left for each pane that
    /// `messages` ask for.
    pub open spec fn has_room_for_all(self, messages: Seq<Message>) -> bool {
        panes_asked_for(messages) > 0 ==> tree_id_bound(self.layout) + panes_asked_for(messages)
            <= u64::MAX
    }

    /// Set up the application state from what loading the saved settings
    /// and the saved layout came to.
    ///
    /// Saved settings are honoured, with defaults of `platform` for what
    /// they lack; without them the defaults of a first run are used. A saved
    /// layout is taken as it is; with none saved the layout is a single
    /// welcome tab, and in place of one that cannot be read it is a single
    /// tab that reports the failure. Neither depends on the other. The
    /// settings dialog is closed.
    pub fn init(
        saved_settings: Result<Option<SettingsDocument>, PersistenceError>,
        saved_layout: Result<Option<Tree<Pane>>, PersistenceError>,
        platform: Platform,
    ) -> (app: App)
        ensures
            match saved_settings {
                Ok(Some(document)) => document.restores(platform, app.settings),
                _ => app.settings.is_default_on(platform),
            },
            match saved_layout {
                Ok(Some(layout)) => app.layout == layout,
                Ok(None) => is_seed_of(app.layout, Pane::Welcome(Welcome {})),
                Err(_) => is_seed_of(app.layout, Pane::NoStorage(NoStorage {})),
            },
            app.settings_editor is None,
    {
        let settings = initial_settings(saved_settings, platform);
        let layout = initial_layout(saved_layout);
        App { settings, layout, settings_editor: None }
    }

    /// Open the settings dialog on a draft that is a copy of the live
    /// settings. A draft that is already open is replaced.
    pub fn open_settings_editor(&mut self)
        ensures
            final(self).settings == old(self).settings,
            final(self).layout == old(self).layout,
            final(self).settings_editor == Some(SettingsEditor { settings: old(self).settings }),
    {
        self.settings_editor = Some(SettingsEditor::from(self.settings.clone()));
    }

    /// Apply one message and say what is left for the caller to do.
    pub fn handle_message(&mut self, message: Message) -> (action: Option<Action>)
        requires
            old(self).has_room_for(message),
        ensures
            applies(*old(self), message, *final(self), action),
    {
        match message {
            Message::AutoSave => Some(Action::SaveData),
            Message::AddPane { parent, pane } => {
                match add_pane(&mut self.layout, parent, pane) {
                    Some(_) => None,
                    None => Some(Action::WarnNoContainer { parent }),
                }
            },
            Message::CloseSettingsModal { new_settings } => {
                self.settings_editor = None;
                match new_settings {
                    Some(new_settings) => {
                        self.settings = new_settings;
                        Some(Action::ApplySettings)
                    },
                    None => None,
                }
            },
        }
    }

    /// Handle the messages of one frame: apply them in the order in which
    /// they arrived, each one wholly before the next, and hand back what
    /// they leave for the caller to do, in the same order. The caller acts
    /// once the whole queue has been applied.
    pub fn handle_messages(&mut self, messages: Vec<Message>) -> (actions: Vec<Action>)
        requires
            old(self).has_room_for_all(messages@),
        ensures
            applies_in_order(*old(self), messages@, *final(self), actions@),
    {
        let ghost start = *self;
        let ghost queue = messages@;
        let mut actions: Vec<Action> = Vec::new();
        for message in iter: messages
            invariant
                iter.seq() == queue,
                applies_in_order(start, queue.take(iter.index() as int), *self, actions@),
                tree_id_bound(self.layout) <= tree_id_bound(start.layout) + panes_asked_for(
                    queue.take(iter.index() as int),
                ),
                start.has_room_for_all(queue),
        {
            let ghost done = iter.index() as int;
            let ghost middle = *self;
            let ghost earlier = actions@;
            proof {
                assert(queue.take(done + 1).drop_last() =~= queue.take(done));
                lemma_panes_asked_for_prefix(queue, done + 1);
            }
            let action = self.handle_message(message);
            match action {
                Some(action) => actions.push(action),
                None => {},
            }
            proof {
                lemma_applies_in_order_step(
                    start,
                    queue.take(done + 1),
                    *self,
                    actions@,
                    middle,
                    earlier,
                    action,
                );
            }
        }
        proof {
            assert(queue.take(queue.len() as int) =~= queue);
        }
        actions
    }
}

/// Applying a queue is applying all but its last message and then the last.
pub proof fn lemma_applies_in_order_step(
    before: App,
    messages: Seq<Message>,
    after: App,
    actions: Seq<Action>,
    middle: App,
    earlier: Seq<Action>,
    action: Option<Action>,
)
    requires
        messages.len() > 0,
        applies_in_order(before, messages.drop_last(), middle, earlier),
        applies(middle, messages.last(), after, action),
        actions == with_action(earlier, action),
    ensures
        applies_in_order(before, messages, after, actions),
{
    assert(applies_last(middle, messages.last(), after, action, earlier, actions));
}

/// No more panes are asked for by the first `n` messages than by all.
pub proof fn lemma_panes_asked_for_prefix(messages: Seq<Message>, n: int)
    requires
        0 <= n <= messages.len(),
    ensures
        panes_asked_for(messages.take(n)) <= panes_asked_for(messages),
    decreases messages.len(),
{
    if n == messages.len() {
        assert(messages.take(n) =~= messages);
    } else {
        assert(messages.drop_last().take(n) =~= messages.take(n));
        lemma_panes_asked_for_prefix(messages.drop_last(), n);
    }
}

/// A queue of one message is applied as that message is.
pub proof fn lemma_applies_in_order_single(
    before: App,
    message: Message,
    after: App,
    actions: Seq<Action>,
)
    ensures
        applies_in_order(before, seq![message], after, actions) <==> exists|action: Option<Action>|
            #[trigger] applies_last(before, message, after, action, Seq::empty(), actions),
{
    let queue = seq![message];
    assert(queue.drop_last() =~= Seq::<Message>::empty());
    assert(queue.last() == message);
    if applies_in_order(before, queue, after, actions) {
        let (middle, earlier, action) = choose|
            middle: App,
            earlier: Seq<Action>,
            action: Option<Action>,
        |
            {
                &&& applies_in_order(before, queue.drop_last(), middle, earlier)
                &&& #[trigger] applies_last(middle, queue.last(), after, action, earlier, actions)
            };
        assert(earlier =~= Seq::<Action>::empty());
        assert(applies_last(before, message, after, action, Seq::empty(), actions));
    }
    if exists|action: Option<Action>| #[trigger]
        applies_last(before, message, after, action, Seq::empty(), actions) {
        let action = choose|action: Option<Action>| #[trigger]
            applies_last(before, message, after, action, Seq::empty(), actions);
        lemma_applies_in_order_step(before, queue, after, actions, before, Seq::empty(), action);
    }
}

/// Whether `first` can take `before` to `middle` asking for `first_actions`,
/// and `rest` can take `middle` to `after` asking for `rest_actions`.
pub open spec fn applies_in_two_parts(
    before: App,
    first: Seq<Message>,
    middle: App,
    rest: Seq<Message>,
    after: App,
    first_actions: Seq<Action>,
    rest_actions: Seq<Action>,
) -> bool {
    &&& applies_in_order(before, first, middle, first_actions)
    &&& applies_in_order(middle, rest, after, rest_actions)
}

/// Messages are applied in the order of the queue and never out of it:
/// whatever a queue does, its first part has been applied, wholly and alone,
/// before anything of the rest is, and the actions asked for come in the
/// same order.
pub proof fn lemma_applies_in_order_split(
    before: App,
    first: Seq<Message>,
    rest: Seq<Message>,
    after: App,
    actions: Seq<Action>,
)
    requires
        applies_in_order(before, first + rest, after, actions),
    ensures
        exists|middle: App, first_actions: Seq<Action>, rest_actions: Seq<Action>|
            {
                &&& #[trigger] applies_in_two_parts(
                    before,
                    first,
                    middle,
                    rest,
                    after,
                    first_actions,
                    rest_actions,
                )
                &&& actions == first_actions + rest_actions
            },
    decreases rest.len(),
{
    let queue = first + rest;
    if rest.len() == 0 {
        assert(queue =~= first);
        assert(actions =~= actions + Seq::<Action>::empty());
        assert(applies_in_two_parts(before, first, after, rest, after, actions, Seq::empty()));
    } else {
        let (last_but_one, earlier, action) = choose|
            last_but_one: App,
            earlier: Seq<Action>,
            action: Option<Action>,
        |
            {
                &&& applies_in_order(before, queue.drop_last(), last_but_one, earlier)
                &&& #[trigger] applies_last(
                    last_but_one,
                    queue.last(),
                    after,
                    action,
                    earlier,
                    actions,
                )
            };
        assert(queue.drop_last() =~= first + rest.drop_last());
        assert(queue.last() == rest.last());
        lemma_applies_in_order_split(before, first, rest.drop_last(), last_but_one, earlier);
        let (middle, first_actions, shorter) = choose|
            middle: App,
            first_actions: Seq<Action>,
            shorter: Seq<Action>,
        |
            {
                &&& #[trigger] applies_in_two_parts(
                    before,
                    first,
                    middle,
                    rest.drop_last(),
                    last_but_one,
                    first_actions,
                    shorter,
                )
                &&& earlier == first_actions + shorter
            };
        let rest_actions = with_action(shorter, action);
        lemma_applies_in_order_step(
            middle,
            rest,
            after,
            rest_actions,
            last_but_one,
            shorter,
            action,
        );
        assert(actions =~= first_actions + rest_actions);
        assert(applies_in_two_parts(
            before,
            first,
            middle,
            rest,
            after,
            first_actions,
            rest_actions,
        ));
    }
}

/// A request to open a pane under a parent that the layout does not hold
/// changes nothing at all; a warning is asked for.
pub proof fn lemma_stale_parent_is_dropped(
    before: App,
    parent: u64,
    pane: Pane,
    after: App,
    action: Option<Action>,
)
    requires
        !tree_tiles(before.layout).dom().contains(parent),
        applies(before, Message::AddPane { parent, pane }, after, action),
    ensures
        after == before,
        action == Some(Action::WarnNoContainer { parent }),
{
}

/// Cancelling the settings dialog closes it and leaves the live settings
/// and the layout as they were, whatever the draft had come to.
pub proof fn lemma_cancel_keeps_settings(
    before: App,
    editor: SettingsEditor,
    save_clicked: bool,
    after: App,
    action: Option<Action>,
)
    requires
        editor.request(true, save_clicked) matches Some(message) && applies(
            before,
            message,
            after,
            action,
        ),
    ensures
        after.settings == before.settings,
        after.layout == before.layout,
        after.settings_editor is None,
        action is None,
{
}

/// Saving the draft of the settings dialog closes it and makes the draft
/// the live settings.
pub proof fn lemma_save_takes_over_draft(
    before: App,
    editor: SettingsEditor,
    after: App,
    action: Option<Action>,
)
    requires
        editor.request(false, true) matches Some(message) && applies(
            before,
            message,
            after,
            action,
        ),
    ensures
        after.settings == editor.settings,
        after.layout == before.layout,
        after.settings_editor is None,
        action == Some(Action::ApplySettings),
{
}

} // verus!
