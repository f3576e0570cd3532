use shooter_core::components::{ECharacterAttackState, ECharacterMovementState, ESpriteDirection};
use shooter_core::mainmenu::{animate_text, ui_controls, HoverState, MainMenuState, MenuAction, MenuInput};
use shooter_core::timer::Timer;
use shooter_core::GameState;

fn input(down: bool, up: bool, ret: bool) -> MenuInput {
    MenuInput { down_released: down, up_released: up, return_released: ret }
}

#[test]
fn cursor_moves_and_wraps_with_a_click() {
    let splash = MainMenuState::SplashScreen;
    let r = ui_controls(splash, HoverState::PlayGame, input(true, false, false));
    assert_eq!(r.hover_state, HoverState::Credits);
    assert!(r.play_click);
    assert_eq!(r.action, MenuAction::Nothing);
    assert_eq!(ui_controls(splash, HoverState::Quit, input(true, false, false)).hover_state, HoverState::PlayGame);
    assert_eq!(ui_controls(splash, HoverState::PlayGame, input(false, true, false)).hover_state, HoverState::Quit);
    assert_eq!(ui_controls(splash, HoverState::Credits, input(false, true, false)).hover_state, HoverState::PlayGame);
    assert_eq!(ui_controls(splash, HoverState::Credits, input(true, true, false)).hover_state, HoverState::Quit);
    let idle = ui_controls(splash, HoverState::Credits, input(false, false, false));
    assert_eq!(idle.hover_state, HoverState::Credits);
    assert!(!idle.play_click);
}

#[test]
fn return_chooses_the_entry_under_the_cursor() {
    let splash = MainMenuState::SplashScreen;
    assert_eq!(ui_controls(splash, HoverState::PlayGame, input(false, false, true)).action, MenuAction::StartGame);
    assert_eq!(ui_controls(splash, HoverState::Quit, input(false, false, true)).action, MenuAction::Quit);
    let credits = ui_controls(splash, HoverState::Credits, input(false, false, true));
    assert_eq!(credits.action, MenuAction::ShowCredits);
    assert_eq!(credits.menu_state, MainMenuState::Credits);
    // The cursor moved in the same frame, but the choice is the entry it was on.
    let both = ui_controls(splash, HoverState::PlayGame, input(true, false, true));
    assert_eq!(both.action, MenuAction::StartGame);
    assert_eq!(both.hover_state, HoverState::Credits);
}

#[test]
fn credits_screen_waits_for_return() {
    let c = MainMenuState::Credits;
    let stay = ui_controls(c, HoverState::Credits, input(true, false, false));
    assert_eq!(stay.menu_state, MainMenuState::Credits);
    assert_eq!(stay.hover_state, HoverState::Credits);
    assert!(!stay.play_click);
    let back = ui_controls(c, HoverState::Credits, input(false, false, true));
    assert_eq!(back.menu_state, MainMenuState::SplashScreen);
    assert_eq!(back.hover_state, HoverState::PlayGame);
    assert_eq!(back.action, MenuAction::HideCredits);
}

#[test]
fn highlighted_text_is_the_hovered_entry() {
    assert!(animate_text(HoverState::Quit, HoverState::Quit));
    assert!(!animate_text(HoverState::PlayGame, HoverState::Quit));
    assert_eq!(HoverState::PlayGame.below().below().below(), HoverState::PlayGame);
    assert_eq!(HoverState::Credits.above(), HoverState::PlayGame);
}

#[test]
fn defaults_match_the_starting_state() {
    assert_eq!(GameState::default(), GameState::MainMenu);
    assert_eq!(MainMenuState::default(), MainMenuState::SplashScreen);
    assert_eq!(HoverState::default(), HoverState::PlayGame);
    assert_eq!(ESpriteDirection::default(), ESpriteDirection::DOWN);
    assert_eq!(ECharacterMovementState::default(), ECharacterMovementState::IDLE);
    assert_eq!(ECharacterAttackState::default(), ECharacterAttackState::IDLE);
}

#[test]
fn timer_wraps_and_reports_expiry_once() {
    let mut t = Timer::from_nanos(100);
    t.tick(40);
    assert_eq!(t.elapsed(), 40);
    assert!(!t.just_finished());
    t.tick(60);
    assert_eq!(t.elapsed(), 0);
    assert!(t.just_finished());
    t.tick(250);
    assert_eq!(t.elapsed(), 50);
    assert!(t.just_finished());
    t.tick(10);
    assert!(!t.just_finished());
    t.tick(u64::MAX);
    assert!(t.just_finished());
    assert_eq!(t.elapsed(), (60 + (u64::MAX % 100)) % 100);
    t.reset();
    assert_eq!(t.elapsed(), 0);
    assert!(!t.just_finished());
    t.tick(30);
    t.set_duration(500);
    assert_eq!(t.duration(), 500);
    assert_eq!(t.elapsed(), 30);
}

#[test]
fn fresh_timers_and_players_are_usable() {
    let t = Timer::from_nanos(5);
    assert!(t.is_wf());
    assert!(shooter_core::player::init_player().is_wf());
}
