use ferroforge::gate::GateType;
use ferroforge::menu::{
    menu_step, react, ButtonInteraction, ButtonLabel, ButtonResponse, GameState, MenuAction, MenuButton,
};
use ferroforge::pick::first_hit;

#[test]
fn menus_start_on_main_menu() {
    assert_eq!(GameState::default(), GameState::MainMenu);
}

#[test]
fn main_menu_buttons() {
    assert_eq!(menu_step(GameState::MainMenu, MenuButton::StartEditor), MenuAction::Goto(GameState::Editor));
    assert_eq!(menu_step(GameState::MainMenu, MenuButton::ShowCredits), MenuAction::Goto(GameState::Credits));
    assert_eq!(menu_step(GameState::MainMenu, MenuButton::Quit), MenuAction::Exit);
    assert_eq!(menu_step(GameState::MainMenu, MenuButton::BackToMenu), MenuAction::Ignore);
    assert_eq!(menu_step(GameState::MainMenu, MenuButton::Nand), MenuAction::Ignore);
}

#[test]
fn editor_buttons() {
    assert_eq!(menu_step(GameState::Editor, MenuButton::BackToMenu), MenuAction::Goto(GameState::MainMenu));
    assert_eq!(menu_step(GameState::Editor, MenuButton::Nand), MenuAction::SpawnGate(GateType::NAND));
    assert_eq!(menu_step(GameState::Editor, MenuButton::Nor), MenuAction::Announce(GateType::NOR));
    assert_eq!(menu_step(GameState::Editor, MenuButton::And), MenuAction::Announce(GateType::AND));
    assert_eq!(menu_step(GameState::Editor, MenuButton::Or), MenuAction::Announce(GateType::OR));
    assert_eq!(menu_step(GameState::Editor, MenuButton::Quit), MenuAction::Ignore);
}

#[test]
fn credits_buttons() {
    assert_eq!(menu_step(GameState::Credits, MenuButton::BackToMenu), MenuAction::Goto(GameState::MainMenu));
    assert_eq!(menu_step(GameState::Credits, MenuButton::StartEditor), MenuAction::Ignore);
}

#[test]
fn back_returns_to_main_menu_after_any_screen_change() {
    for b in [MenuButton::StartEditor, MenuButton::ShowCredits] {
        match menu_step(GameState::MainMenu, b) {
            MenuAction::Goto(next) => {
                assert_eq!(menu_step(next, MenuButton::BackToMenu), MenuAction::Goto(GameState::MainMenu))
            }
            other => panic!("unexpected {:?}", other),
        }
    }
}

#[test]
fn press_toggles_and_reports() {
    assert_eq!(
        react(false, ButtonInteraction::Pressed),
        ButtonResponse { input: true, label: ButtonLabel::Press, focus: true, report: Some(1) }
    );
    assert_eq!(
        react(true, ButtonInteraction::Pressed),
        ButtonResponse { input: false, label: ButtonLabel::Press, focus: true, report: Some(0) }
    );
}

#[test]
fn hover_and_idle_keep_input() {
    assert_eq!(
        react(true, ButtonInteraction::Hovered),
        ButtonResponse { input: true, label: ButtonLabel::Hover, focus: true, report: None }
    );
    assert_eq!(
        react(false, ButtonInteraction::Idle),
        ButtonResponse { input: false, label: ButtonLabel::Button, focus: false, report: None }
    );
}

#[test]
fn two_presses_restore_input() {
    for start in [false, true] {
        let once = react(start, ButtonInteraction::Pressed);
        let twice = react(once.input, ButtonInteraction::Pressed);
        assert_eq!(twice.input, start);
    }
}

#[test]
fn label_texts() {
    assert_eq!(ButtonLabel::Press.text(), "Press");
    assert_eq!(ButtonLabel::Hover.text(), "Hover");
    assert_eq!(ButtonLabel::Button.text(), "Button");
}

#[test]
fn first_hit_picks_first() {
    assert_eq!(first_hit(&vec![false, true, true]), Some(1));
    assert_eq!(first_hit(&vec![true]), Some(0));
    assert_eq!(first_hit(&vec![false, false]), None);
    assert_eq!(first_hit(&vec![]), None);
}

#[test]
fn presses_flip_by_parity() {
    for start in [false, true] {
        let mut input = start;
        for k in 1..=7u32 {
            input = react(input, ButtonInteraction::Pressed).input;
            assert_eq!(input, start ^ (k % 2 == 1));
        }
    }
}
