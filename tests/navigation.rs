use ovarai::{
    Action, AnalyzeMenuItem, App, CyclicItem, ExperimentMenuItem, Key, MainMenuItem, Screen,
    ShowcaseMenuItem,
};

fn app_on(screen: Screen) -> App {
    let mut app = App::new();
    app.screen = screen;
    app
}

#[test]
fn fresh_state_selects_first_entries() {
    let app = App::new();
    assert_eq!(app.screen, Screen::MainMenu);
    assert_eq!(app.selected_main, MainMenuItem::Analyze);
    assert_eq!(app.selected_analyze, AnalyzeMenuItem::Dataset);
    assert_eq!(app.selected_experiment, ExperimentMenuItem::All);
    assert_eq!(app.selected_showcase, ShowcaseMenuItem::Developer);
}

#[test]
fn concrete_navigation_scenario() {
    let mut app = App::new();
    assert_eq!(app.screen, Screen::MainMenu);
    assert_eq!(app.selected_main, MainMenuItem::Analyze);
    assert_eq!(app.handle_key(Key::Down), Action::Continue);
    assert_eq!(app.selected_main, MainMenuItem::Experiment);
    assert_eq!(app.handle_key(Key::Down), Action::Continue);
    assert_eq!(app.selected_main, MainMenuItem::Showcase);
    assert_eq!(app.handle_key(Key::Down), Action::Continue);
    assert_eq!(app.selected_main, MainMenuItem::Analyze);
    assert_eq!(app.handle_key(Key::Enter), Action::Continue);
    assert_eq!(app.screen, Screen::AnalyzeMenu);
    assert_eq!(app.selected_analyze, AnalyzeMenuItem::Dataset);
    assert_eq!(app.handle_key(Key::Up), Action::Continue);
    assert_eq!(app.selected_analyze, AnalyzeMenuItem::TrainingResults);
    assert_eq!(app.handle_key(Key::Char('q')), Action::Continue);
    assert_eq!(app.screen, Screen::MainMenu);
    assert_eq!(app.selected_analyze, AnalyzeMenuItem::TrainingResults);
    assert_eq!(app.selected_main, MainMenuItem::Analyze);
    assert_eq!(app.handle_key(Key::Char('q')), Action::Quit);
}

#[test]
fn next_wraps_on_every_screen() {
    let mut app = app_on(Screen::AnalyzeMenu);
    let order = AnalyzeMenuItem::all();
    for i in 0..4 {
        assert_eq!(app.selected_analyze, order[i]);
        app.next();
    }
    assert_eq!(app.selected_analyze, AnalyzeMenuItem::Dataset);

    let mut app = app_on(Screen::ExperimentMenu);
    app.next();
    assert_eq!(app.selected_experiment, ExperimentMenuItem::Selected);
    app.next();
    assert_eq!(app.selected_experiment, ExperimentMenuItem::All);

    let mut app = app_on(Screen::ShowcaseMenu);
    app.next();
    assert_eq!(app.selected_showcase, ShowcaseMenuItem::Demonstration);
    app.next();
    assert_eq!(app.selected_showcase, ShowcaseMenuItem::Developer);
}

#[test]
fn previous_wraps_on_every_screen() {
    let mut app = app_on(Screen::MainMenu);
    app.previous();
    assert_eq!(app.selected_main, MainMenuItem::Showcase);
    app.previous();
    assert_eq!(app.selected_main, MainMenuItem::Experiment);
    app.previous();
    assert_eq!(app.selected_main, MainMenuItem::Analyze);

    let mut app = app_on(Screen::AnalyzeMenu);
    app.previous();
    assert_eq!(app.selected_analyze, AnalyzeMenuItem::TrainingResults);
    app.previous();
    assert_eq!(app.selected_analyze, AnalyzeMenuItem::TrainingGraphs);

    let mut app = app_on(Screen::ExperimentMenu);
    app.previous();
    assert_eq!(app.selected_experiment, ExperimentMenuItem::Selected);

    let mut app = app_on(Screen::ShowcaseMenu);
    app.previous();
    assert_eq!(app.selected_showcase, ShowcaseMenuItem::Demonstration);
}

#[test]
fn full_cycle_returns_to_start() {
    let screens = [
        (Screen::MainMenu, 3),
        (Screen::AnalyzeMenu, 4),
        (Screen::ExperimentMenu, 2),
        (Screen::ShowcaseMenu, 2),
    ];
    for (screen, n) in screens {
        let mut app = app_on(screen);
        app.next();
        let start = app;
        for _ in 0..n {
            app.next();
        }
        assert_eq!(app, start);
        for _ in 0..n {
            app.previous();
        }
        assert_eq!(app, start);
    }
}

#[test]
fn moving_keeps_other_cursors() {
    let mut app = app_on(Screen::ExperimentMenu);
    app.next();
    app.next();
    app.next();
    app.previous();
    assert_eq!(app.selected_experiment, ExperimentMenuItem::All);
    assert_eq!(app.selected_main, MainMenuItem::Analyze);
    assert_eq!(app.selected_analyze, AnalyzeMenuItem::Dataset);
    assert_eq!(app.selected_showcase, ShowcaseMenuItem::Developer);
    assert_eq!(app.screen, Screen::ExperimentMenu);

    let mut app = App::new();
    app.next();
    assert_eq!(app.selected_main, MainMenuItem::Experiment);
    assert_eq!(app.selected_analyze, AnalyzeMenuItem::Dataset);
    assert_eq!(app.selected_experiment, ExperimentMenuItem::All);
    assert_eq!(app.selected_showcase, ShowcaseMenuItem::Developer);
}

#[test]
fn confirm_on_experiment_opens_experiment_menu() {
    let mut app = App::new();
    app.selected_main = MainMenuItem::Experiment;
    app.selected_experiment = ExperimentMenuItem::Selected;
    assert_eq!(app.handle_key(Key::Enter), Action::Continue);
    assert_eq!(app.screen, Screen::ExperimentMenu);
    assert_eq!(app.selected_experiment, ExperimentMenuItem::Selected);
    assert_eq!(app.selected_main, MainMenuItem::Experiment);
}

#[test]
fn confirm_opens_each_submenu() {
    let pairs = [
        (MainMenuItem::Analyze, Screen::AnalyzeMenu),
        (MainMenuItem::Experiment, Screen::ExperimentMenu),
        (MainMenuItem::Showcase, Screen::ShowcaseMenu),
    ];
    for (item, screen) in pairs {
        let mut app = App::new();
        app.selected_main = item;
        assert_eq!(app.handle_key(Key::Enter), Action::Continue);
        assert_eq!(app.screen, screen);
    }
}

#[test]
fn confirm_on_submenu_changes_nothing() {
    for screen in [Screen::AnalyzeMenu, Screen::ExperimentMenu, Screen::ShowcaseMenu] {
        let mut app = app_on(screen);
        app.next();
        let before = app;
        assert_eq!(app.handle_key(Key::Enter), Action::Continue);
        assert_eq!(app, before);
    }
}

#[test]
fn back_from_submenu_round_trip_keeps_cursors() {
    let mut app = App::new();
    app.next();
    app.next();
    app.selected_analyze = AnalyzeMenuItem::TrainingGraphs;
    app.selected_showcase = ShowcaseMenuItem::Demonstration;
    let before = app;
    assert_eq!(app.handle_key(Key::Enter), Action::Continue);
    assert_eq!(app.screen, Screen::ShowcaseMenu);
    assert_eq!(app.handle_key(Key::Char('q')), Action::Continue);
    assert_eq!(app, before);
}

#[test]
fn submenu_cursor_survives_visiting_another_submenu() {
    let mut app = App::new();
    app.handle_key(Key::Enter);
    app.handle_key(Key::Down);
    app.handle_key(Key::Down);
    assert_eq!(app.selected_analyze, AnalyzeMenuItem::TrainingGraphs);
    app.handle_key(Key::Char('q'));
    app.handle_key(Key::Down);
    app.handle_key(Key::Enter);
    assert_eq!(app.screen, Screen::ExperimentMenu);
    app.handle_key(Key::Down);
    app.handle_key(Key::Char('q'));
    app.handle_key(Key::Up);
    app.handle_key(Key::Enter);
    assert_eq!(app.screen, Screen::AnalyzeMenu);
    assert_eq!(app.selected_analyze, AnalyzeMenuItem::TrainingGraphs);
    assert_eq!(app.selected_experiment, ExperimentMenuItem::Selected);
}

#[test]
fn back_quits_only_from_main() {
    for screen in [Screen::AnalyzeMenu, Screen::ExperimentMenu, Screen::ShowcaseMenu] {
        let mut app = app_on(screen);
        assert_eq!(app.handle_key(Key::Char('q')), Action::Continue);
        assert_eq!(app.screen, Screen::MainMenu);
    }
    let mut app = App::new();
    let before = app;
    assert_eq!(app.handle_key(Key::Char('q')), Action::Quit);
    assert_eq!(app, before);
}

#[test]
fn letter_aliases_move_like_arrows() {
    let mut by_letter = App::new();
    let mut by_arrow = App::new();
    by_letter.handle_key(Key::Char('j'));
    by_arrow.handle_key(Key::Down);
    assert_eq!(by_letter, by_arrow);
    assert_eq!(by_letter.selected_main, MainMenuItem::Experiment);
    by_letter.handle_key(Key::Char('k'));
    by_arrow.handle_key(Key::Up);
    assert_eq!(by_letter, by_arrow);
    assert_eq!(by_letter.selected_main, MainMenuItem::Analyze);
}

#[test]
fn unrecognized_keys_are_ignored() {
    let keys = [Key::Other, Key::Char('x'), Key::Char('Q'), Key::Char('J'), Key::Char(' ')];
    for screen in [
        Screen::MainMenu,
        Screen::AnalyzeMenu,
        Screen::ExperimentMenu,
        Screen::ShowcaseMenu,
    ] {
        for key in keys {
            let mut app = app_on(screen);
            app.next();
            let before = app;
            assert_eq!(app.handle_key(key), Action::Continue);
            assert_eq!(app, before);
        }
    }
}

#[test]
fn all_lists_entries_in_order() {
    assert_eq!(
        MainMenuItem::all(),
        [MainMenuItem::Analyze, MainMenuItem::Experiment, MainMenuItem::Showcase]
    );
    assert_eq!(
        AnalyzeMenuItem::all(),
        [
            AnalyzeMenuItem::Dataset,
            AnalyzeMenuItem::SampleBatch,
            AnalyzeMenuItem::TrainingGraphs,
            AnalyzeMenuItem::TrainingResults,
        ]
    );
    assert_eq!(ExperimentMenuItem::all(), [ExperimentMenuItem::All, ExperimentMenuItem::Selected]);
    assert_eq!(
        ShowcaseMenuItem::all(),
        [ShowcaseMenuItem::Developer, ShowcaseMenuItem::Demonstration]
    );
}

#[test]
fn display_gives_labels() {
    assert_eq!(MainMenuItem::Analyze.display(), "Analyze");
    assert_eq!(MainMenuItem::Experiment.display(), "Experiment");
    assert_eq!(MainMenuItem::Showcase.display(), "Showcase");
    assert_eq!(AnalyzeMenuItem::Dataset.display(), "Describe Dataset");
    assert_eq!(AnalyzeMenuItem::SampleBatch.display(), "Show Sample Batch");
    assert_eq!(AnalyzeMenuItem::TrainingGraphs.display(), "Show Training Graphs");
    assert_eq!(AnalyzeMenuItem::TrainingResults.display(), "Show Training Results");
    assert_eq!(ExperimentMenuItem::All.display(), "Run All Experiments");
    assert_eq!(ExperimentMenuItem::Selected.display(), "Run Selected Experiments");
    assert_eq!(ShowcaseMenuItem::Developer.display(), "Launch Dashboard - Developer Mode");
    assert_eq!(
        ShowcaseMenuItem::Demonstration.display(),
        "Launch Dashboard - Demonstration Mode"
    );
}

#[test]
fn successor_and_predecessor_are_inverse() {
    for item in AnalyzeMenuItem::all() {
        assert_eq!(item.successor().predecessor(), item);
        assert_eq!(item.predecessor().successor(), item);
    }
    assert_eq!(MainMenuItem::Showcase.successor(), MainMenuItem::Analyze);
    assert_eq!(MainMenuItem::Analyze.predecessor(), MainMenuItem::Showcase);
    assert_eq!(ExperimentMenuItem::All.predecessor(), ExperimentMenuItem::Selected);
    assert_eq!(ShowcaseMenuItem::Demonstration.successor(), ShowcaseMenuItem::Developer);
}
