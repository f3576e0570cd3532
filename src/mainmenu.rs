use vstd::prelude::*;

verus! {

/// Marks what is shown only on the title screen.
#[derive(Debug, Clone, Copy, Default, PartialEq, Eq, Structural)]
pub struct OnlyInMainMenu;

/// Marks what is shown only on the credits screen.
#[derive(Debug, Clone, Copy, Default, PartialEq, Eq, Structural)]
pub struct OnlyInCredits;

/// Which screen of the main menu is up.
#[derive(Debug, Clone, Copy, PartialEq, Eq, Hash, Structural)]
pub enum MainMenuState {
    SplashScreen,
    Credits,
}

impl Default for MainMenuState {
    fn default() -> (r: MainMenuState)
        ensures
            r == MainMenuState::SplashScreen,
    {
        MainMenuState::SplashScreen
    }
}

/// The title-screen entry under the cursor.
#[derive(Debug, Clone, Copy, PartialEq, Eq, Hash, Structural)]
pub enum HoverState {
    PlayGame,
    Credits,
    Quit,
}

impl Default for HoverState {
    fn default() -> (r: HoverState)
        ensures
            r == HoverState::PlayGame,
    {
        HoverState::PlayGame
    }
}

/// The menu keys released during one frame.
#[derive(Debug, Clone, Copy, PartialEq, Eq, Structural)]
pub struct MenuInput {
    pub down_released: bool,
    pub up_released: bool,
    pub return_released: bool,
}

/// What the menu asks of the game after a frame.
#[derive(Debug, Clone, Copy, PartialEq, Eq, Structural)]
pub enum MenuAction {
    Nothing,
    StartGame,
    ShowCredits,
    HideCredits,
    Quit,
}

/// The menu after a frame: its screen, the entry under the cursor, what to do, and
/// whether to play the click of a cursor move.
#[derive(Debug, Clone, Copy, PartialEq, Eq, Structural)]
pub struct MenuOutcome {
    pub menu_state: MainMenuState,
    pub hover_state: HoverState,
    pub action: MenuAction,
    pub play_click: bool,
}

/// The entry below, wrapping from the last to the first.
pub open spec fn hover_below(h: HoverState) -> HoverState {
    match h {
        HoverState::PlayGame => HoverState::Credits,
        HoverState::Credits => HoverState::Quit,
        HoverState::Quit => HoverState::PlayGame,
    }
}

/// The entry above, wrapping from the first to the last.
pub open spec fn hover_above(h: HoverState) -> HoverState {
    match h {
        HoverState::PlayGame => HoverState::Quit,
        HoverState::Credits => HoverState::PlayGame,
        HoverState::Quit => HoverState::Credits,
    }
}

/// What choosing an entry with Return does.
pub open spec fn chosen_action(h: HoverState) -> MenuAction {
    match h {
        HoverState::PlayGame => MenuAction::StartGame,
        HoverState::Credits => MenuAction::ShowCredits,
        HoverState::Quit => MenuAction::Quit,
    }
}

/// The menu after one frame of input.
///
/// On the title screen Down moves the cursor down and Up moves it up, each with a click;
/// when both are released in one frame Down counts. Return chooses the entry that was
/// under the cursor at the start of the frame. On the credits screen only Return counts:
/// it goes back to the title screen with the cursor on the first entry.
pub open spec fn menu_step(m: MainMenuState, h: HoverState, input: MenuInput) -> MenuOutcome {
    match m {
        MainMenuState::SplashScreen => {
            let moved = input.down_released || input.up_released;
            let hover = if input.down_released {
                hover_below(h)
            } else if input.up_released {
                hover_above(h)
            } else {
                h
            };
            let action = if input.return_released {
                chosen_action(h)
            } else {
                MenuAction::Nothing
            };
            let screen = if action == MenuAction::ShowCredits {
                MainMenuState::Credits
            } else {
                MainMenuState::SplashScreen
            };
            MenuOutcome { menu_state: screen, hover_state: hover, action, play_click: moved }
        },
        MainMenuState::Credits => {
            if input.return_released {
                MenuOutcome {
                    menu_state: MainMenuState::SplashScreen,
                    hover_state: HoverState::PlayGame,
                    action: MenuAction::HideCredits,
                    play_click: false,
                }
            } else {
                MenuOutcome { menu_state: m, hover_state: h, action: MenuAction::Nothing, play_click: false }
            }
        },
    }
}

impl HoverState {
    /// The entry below, wrapping from the last to the first.
    pub fn below(self) -> (r: HoverState)
        ensures
            r == hover_below(self),
    {
        match self {
            HoverState::PlayGame => HoverState::Credits,
            HoverState::Credits => HoverState::Quit,
            HoverState::Quit => HoverState::PlayGame,
        }
    }

    /// The entry above, wrapping from the first to the last.
    pub fn above(self) -> (r: HoverState)
        ensures
            r == hover_above(self),
    {
        match self {
            HoverState::PlayGame => HoverState::Quit,
            HoverState::Credits => HoverState::PlayGame,
            HoverState::Quit => HoverState::Credits,
        }
    }
}

/// Runs the main menu for one frame of input.
pub fn ui_controls(main_menu_state: MainMenuState, hover_state: HoverState, input: MenuInput) -> (r: MenuOutcome)
    ensures
        r == menu_step(main_menu_state, hover_state, input),
{
    match main_menu_state {
        MainMenuState::SplashScreen => {
            let mut outcome = MenuOutcome {
                menu_state: MainMenuState::SplashScreen,
                hover_state,
                action: MenuAction::Nothing,
                play_click: false,
            };
            if input.down_released {
                outcome.hover_state = hover_state.below();
                outcome.play_click = true;
            } else if input.up_released {
                outcome.hover_state = hover_state.above();
                outcome.play_click = true;
            }
            if input.return_released {
                match hover_state {
                    HoverState::PlayGame => outcome.action = MenuAction::StartGame,
                    HoverState::Credits => {
                        outcome.action = MenuAction::ShowCredits;
                        outcome.menu_state = MainMenuState::Credits;
                    },
                    HoverState::Quit => outcome.action = MenuAction::Quit,
                }
            }
            outcome
        },
        MainMenuState::Credits => {
            if input.return_released {
                MenuOutcome {
                    menu_state: MainMenuState::SplashScreen,
                    hover_state: HoverState::default(),
                    action: MenuAction::HideCredits,
                    play_click: false,
                }
            } else {
                MenuOutcome {
                    menu_state: main_menu_state,
                    hover_state,
                    action: MenuAction::Nothing,
                    play_click: false,
                }
            }
        },
    }
}

/// Whether the text of menu entry `entry` is drawn in the highlight colour.
pub fn animate_text(entry: HoverState, hover_state: HoverState) -> (r: bool)
    ensures
        r == (entry == hover_state),
{
    entry == hover_state
}

/// Moving the cursor down and then up, or up and then down, comes back to where it was;
/// three moves the same way go all the way round.
pub proof fn lemma_hover_cycle(h: HoverState)
    ensures
        hover_above(hover_below(h)) == h,
        hover_below(hover_above(h)) == h,
        hover_below(hover_below(hover_below(h))) == h,
        hover_above(hover_above(hover_above(h))) == h,
{
}

} // verus!
