use vstd::prelude::*;
use crate::menu::{advanced_by, lemma_full_cycle, lemma_step_index, retreated_by, MainMenuItem};
use crate::navigation::{screen_len, submenu_of, Action, App, Key, Screen};

verus! {

/// A step forward moves the cursor of the current screen from index `i` to `(i + 1) mod n`,
/// and a step backward to `(i - 1 + n) mod n`, where `n` is the number of entries on the
/// screen. The current screen stays the same.
pub proof fn lemma_step_wraps(app: App)
    ensures
        app.advanced().screen == app.screen,
        app.retreated().screen == app.screen,
        app.advanced().cursor(app.screen) == (app.cursor(app.screen) + 1) % screen_len(app.screen),
        app.retreated().cursor(app.screen) == (app.cursor(app.screen) - 1 + screen_len(app.screen))
            % screen_len(app.screen),
{
    lemma_step_index(app.selected_main);
    lemma_step_index(app.selected_analyze);
    lemma_step_index(app.selected_experiment);
    lemma_step_index(app.selected_showcase);
}

/// Moving the cursor on one screen never changes the cursor stored for another screen.
pub proof fn lemma_cursor_independence(app: App, other: Screen)
    requires
        other != app.screen,
    ensures
        app.advanced().cursor(other) == app.cursor(other),
        app.retreated().cursor(other) == app.cursor(other),
{
}

/// The state after `k` steps forward differs from the start only in the cursor of the
/// current screen, which has moved `k` entries forward.
pub proof fn lemma_advanced_times(app: App, k: nat)
    ensures
        app.advanced_times(k) == (match app.screen {
            Screen::MainMenu => App { selected_main: advanced_by(app.selected_main, k), ..app },
            Screen::AnalyzeMenu => App {
                selected_analyze: advanced_by(app.selected_analyze, k),
                ..app
            },
            Screen::ExperimentMenu => App {
                selected_experiment: advanced_by(app.selected_experiment, k),
                ..app
            },
            Screen::ShowcaseMenu => App {
                selected_showcase: advanced_by(app.selected_showcase, k),
                ..app
            },
        }),
    decreases k,
{
    if k > 0 {
        lemma_advanced_times(app, (k - 1) as nat);
    }
}

/// The state after `k` steps backward differs from the start only in the cursor of the
/// current screen, which has moved `k` entries backward.
pub proof fn lemma_retreated_times(app: App, k: nat)
    ensures
        app.retreated_times(k) == (match app.screen {
            Screen::MainMenu => App { selected_main: retreated_by(app.selected_main, k), ..app },
            Screen::AnalyzeMenu => App {
                selected_analyze: retreated_by(app.selected_analyze, k),
                ..app
            },
            Screen::ExperimentMenu => App {
                selected_experiment: retreated_by(app.selected_experiment, k),
                ..app
            },
            Screen::ShowcaseMenu => App {
                selected_showcase: retreated_by(app.selected_showcase, k),
                ..app
            },
        }),
    decreases k,
{
    if k > 0 {
        lemma_retreated_times(app, (k - 1) as nat);
    }
}

/// As many steps forward, or backward, as the current screen has entries give back the
/// state that they started from.
pub proof fn lemma_cycle_closure(app: App)
    ensures
        app.advanced_times(screen_len(app.screen) as nat) == app,
        app.retreated_times(screen_len(app.screen) as nat) == app,
{
    let n = screen_len(app.screen) as nat;
    lemma_advanced_times(app, n);
    lemma_retreated_times(app, n);
    lemma_full_cycle(app.selected_main);
    lemma_full_cycle(app.selected_analyze);
    lemma_full_cycle(app.selected_experiment);
    lemma_full_cycle(app.selected_showcase);
}

/// Enter on the main menu opens the submenu of the selected entry and keeps every cursor,
/// the cursor of that submenu included; with `Experiment` selected, it opens the
/// experiment menu.
pub proof fn lemma_confirm_enters_submenu(app: App)
    requires
        app.screen == Screen::MainMenu,
    ensures
        app.after_key(Key::Enter) == app.with_screen(submenu_of(app.selected_main)),
        app.action_for(Key::Enter) == Action::Continue,
        forall|s: Screen| #[trigger] app.after_key(Key::Enter).cursor(s) == app.cursor(s),
        app.selected_main == MainMenuItem::Experiment ==> app.after_key(Key::Enter).screen
            == Screen::ExperimentMenu,
{
}

/// Entering a submenu from the main menu and going back at once gives back the state
/// that was left: every cursor is as it was.
pub proof fn lemma_back_round_trip(app: App)
    requires
        app.screen == Screen::MainMenu,
    ensures
        app.after_key(Key::Enter).after_key(Key::Char('q')) == app,
        app.after_key(Key::Enter).action_for(Key::Char('q')) == Action::Continue,
{
}

/// Back from a submenu returns to the main menu and changes no cursor.
pub proof fn lemma_back_keeps_cursors(app: App)
    requires
        app.screen != Screen::MainMenu,
    ensures
        app.after_key(Key::Char('q')) == app.with_screen(Screen::MainMenu),
        forall|s: Screen| #[trigger] app.after_key(Key::Char('q')).cursor(s) == app.cursor(s),
{
}

/// Back quits only from the main menu; on a submenu it continues on the main menu.
pub proof fn lemma_quit_only_from_main(app: App)
    ensures
        app.screen == Screen::MainMenu ==> app.action_for(Key::Char('q')) == Action::Quit
            && app.after_key(Key::Char('q')) == app,
        app.screen != Screen::MainMenu ==> app.action_for(Key::Char('q')) == Action::Continue
            && app.after_key(Key::Char('q')).screen == Screen::MainMenu,
{
}

/// A key that the menus do not recognize changes nothing and continues.
pub proof fn lemma_unrecognized_key_ignored(app: App, key: Key)
    requires
        !key.is_recognized(),
    ensures
        app.after_key(key) == app,
        app.action_for(key) == Action::Continue,
{
}

} // verus!
