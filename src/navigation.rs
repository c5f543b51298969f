use vstd::prelude::*;
use crate::menu::{
    predecessor_of, successor_of, AnalyzeMenuItem, CyclicItem, ExperimentMenuItem, MainMenuItem,
    ShowcaseMenuItem,
};

verus! {

/// The menu screens. `MainMenu` is the start screen; the others are its submenus.
#[derive(Debug, Clone, Copy, PartialEq, Eq, Structural)]
pub enum Screen {
    MainMenu,
    AnalyzeMenu,
    ExperimentMenu,
    ShowcaseMenu,
}

/// What the input loop does after a key press.
#[derive(Debug, Clone, Copy, PartialEq, Eq, Structural)]
pub enum Action {
    Continue,
    Quit,
}

/// A key press, as far as the menus tell keys apart.
#[derive(Debug, Clone, Copy, PartialEq, Eq, Structural)]
pub enum Key {
    Up,
    Down,
    Enter,
    Char(char),
    Other,
}

impl Key {
    /// The arrow key up, or its letter alias `k`.
    pub open spec fn moves_up(self) -> bool {
        self == Key::Up || self == Key::Char('k')
    }

    /// The arrow key down, or its letter alias `j`.
    pub open spec fn moves_down(self) -> bool {
        self == Key::Down || self == Key::Char('j')
    }

    /// The letter `q`: back to the main menu, or quit from it.
    pub open spec fn goes_back(self) -> bool {
        self == Key::Char('q')
    }

    /// The Enter key.
    pub open spec fn confirms(self) -> bool {
        self == Key::Enter
    }

    pub open spec fn is_recognized(self) -> bool {
        self.moves_up() || self.moves_down() || self.goes_back() || self.confirms()
    }
}

/// The submenu that an entry of the main menu opens.
pub open spec fn submenu_of(item: MainMenuItem) -> Screen {
    match item {
        MainMenuItem::Analyze => Screen::AnalyzeMenu,
        MainMenuItem::Experiment => Screen::ExperimentMenu,
        MainMenuItem::Showcase => Screen::ShowcaseMenu,
    }
}

/// The number of entries on a screen.
pub open spec fn screen_len(s: Screen) -> int {
    match s {
        Screen::MainMenu => MainMenuItem::items().len() as int,
        Screen::AnalyzeMenu => AnalyzeMenuItem::items().len() as int,
        Screen::ExperimentMenu => ExperimentMenuItem::items().len() as int,
        Screen::ShowcaseMenu => ShowcaseMenuItem::items().len() as int,
    }
}

/// The navigation state: the current screen and, for each screen, the selected entry.
/// Each screen keeps its own selection while another screen is shown.
#[derive(Debug, Clone, Copy, PartialEq, Eq, Structural)]
pub struct App {
    pub screen: Screen,
    pub selected_main: MainMenuItem,
    pub selected_analyze: AnalyzeMenuItem,
    pub selected_experiment: ExperimentMenuItem,
    pub selected_showcase: ShowcaseMenuItem,
}

impl App {
    /// The position of the selected entry on screen `s`.
    pub open spec fn cursor(self, s: Screen) -> int {
        match s {
            Screen::MainMenu => self.selected_main.index(),
            Screen::AnalyzeMenu => self.selected_analyze.index(),
            Screen::ExperimentMenu => self.selected_experiment.index(),
            Screen::ShowcaseMenu => self.selected_showcase.index(),
        }
    }

    /// This state with another current screen and the same selections.
    pub open spec fn with_screen(self, s: Screen) -> App {
        App { screen: s, ..self }
    }

    /// The selection of the current screen moved one entry forward.
    pub open spec fn advanced(self) -> App {
        match self.screen {
            Screen::MainMenu => App { selected_main: successor_of(self.selected_main), ..self },
            Screen::AnalyzeMenu => App {
                selected_analyze: successor_of(self.selected_analyze),
                ..self
            },
            Screen::ExperimentMenu => App {
                selected_experiment: successor_of(self.selected_experiment),
                ..self
            },
            Screen::ShowcaseMenu => App {
                selected_showcase: successor_of(self.selected_showcase),
                ..self
            },
        }
    }

    /// The selection of the current screen moved one entry backward.
    pub open spec fn retreated(self) -> App {
        match self.screen {
            Screen::MainMenu => App { selected_main: predecessor_of(self.selected_main), ..self },
            Screen::AnalyzeMenu => App {
                selected_analyze: predecessor_of(self.selected_analyze),
                ..self
            },
            Screen::ExperimentMenu => App {
                selected_experiment: predecessor_of(self.selected_experiment),
                ..self
            },
            Screen::ShowcaseMenu => App {
                selected_showcase: predecessor_of(self.selected_showcase),
                ..self
            },
        }
    }

    /// The state after `k` steps forward.
    pub open spec fn advanced_times(self, k: nat) -> App
        decreases k,
    {
        if k == 0 {
            self
        } else {
            self.advanced_times((k - 1) as nat).advanced()
        }
    }

    /// The state after `k` steps backward.
    pub open spec fn retreated_times(self, k: nat) -> App
        decreases k,
    {
        if k == 0 {
            self
        } else {
            self.retreated_times((k - 1) as nat).retreated()
        }
    }

    /// The state after a key press.
    pub open spec fn after_key(self, key: Key) -> App {
        if key.moves_up() {
            self.retreated()
        } else if key.moves_down() {
            self.advanced()
        } else if key.goes_back() {
            self.with_screen(Screen::MainMenu)
        } else if key.confirms() && self.screen == Screen::MainMenu {
            self.with_screen(submenu_of(self.selected_main))
        } else {
            self
        }
    }

    /// What a key press asks of the input loop: `Quit` only for back on the main menu.
    pub open spec fn action_for(self, key: Key) -> Action {
        if key.goes_back() && self.screen == Screen::MainMenu {
            Action::Quit
        } else {
            Action::Continue
        }
    }

    /// The start state: the main menu, with the first entry of every screen selected.
    pub fn new() -> (r: Self)
        ensures
            r == (App {
                screen: Screen::MainMenu,
                selected_main: MainMenuItem::Analyze,
                selected_analyze: AnalyzeMenuItem::Dataset,
                selected_experiment: ExperimentMenuItem::All,
                selected_showcase: ShowcaseMenuItem::Developer,
            }),
            forall|s: Screen| #[trigger] r.cursor(s) == 0,
    {
        Self {
            screen: Screen::MainMenu,
            selected_main: MainMenuItem::Analyze,
            selected_analyze: AnalyzeMenuItem::Dataset,
            selected_experiment: ExperimentMenuItem::All,
            selected_showcase: ShowcaseMenuItem::Developer,
        }
    }

    /// Moves the selection of the current screen one entry forward, wrapping around.
    pub fn next(&mut self)
        ensures
            *final(self) == old(self).advanced(),
    {
        match self.screen {
            Screen::MainMenu => {
                self.selected_main = self.selected_main.successor();
            },
            Screen::AnalyzeMenu => {
                self.selected_analyze = self.selected_analyze.successor();
            },
            Screen::ExperimentMenu => {
                self.selected_experiment = self.selected_experiment.successor();
            },
            Screen::ShowcaseMenu => {
                self.selected_showcase = self.selected_showcase.successor();
            },
        }
    }

    /// Moves the selection of the current screen one entry backward, wrapping around.
    pub fn previous(&mut self)
        ensures
            *final(self) == old(self).retreated(),
    {
        match self.screen {
            Screen::MainMenu => {
                self.selected_main = self.selected_main.predecessor();
            },
            Screen::AnalyzeMenu => {
                self.selected_analyze = self.selected_analyze.predecessor();
            },
            Screen::ExperimentMenu => {
                self.selected_experiment = self.selected_experiment.predecessor();
            },
            Screen::ShowcaseMenu => {
                self.selected_showcase = self.selected_showcase.predecessor();
            },
        }
    }

    /// Applies a key press: up and down move the selection, Enter on the main menu opens
    /// the selected submenu, and `q` returns to the main menu or, there, quits.
    pub fn handle_key(&mut self, key: Key) -> (r: Action)
        ensures
            *final(self) == old(self).after_key(key),
            r == old(self).action_for(key),
    {
        match key {
            Key::Char('q') => match self.screen {
                Screen::MainMenu => Action::Quit,
                _ => {
                    self.screen = Screen::MainMenu;
                    Action::Continue
                },
            },
            Key::Char('k') | Key::Up => {
                self.previous();
                Action::Continue
            },
            Key::Char('j') | Key::Down => {
                self.next();
                Action::Continue
            },
            Key::Enter => {
                match self.screen {
                    Screen::MainMenu => match self.selected_main {
                        MainMenuItem::Analyze => {
                            self.screen = Screen::AnalyzeMenu;
                        },
                        MainMenuItem::Experiment => {
                            self.screen = Screen::ExperimentMenu;
                        },
                        MainMenuItem::Showcase => {
                            self.screen = Screen::ShowcaseMenu;
                        },
                    },
                    _ => {},
                }
                Action::Continue
            },
            _ => Action::Continue,
        }
    }
}

} // verus!
