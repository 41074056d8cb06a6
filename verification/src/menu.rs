use vstd::prelude::*;

use crate::gate::GateType;

verus! {

/// The screens of the editor.
#[derive(Clone, Copy, Debug, PartialEq, Eq, Structural)]
pub enum GameState {
    MainMenu,
    Editor,
    Credits,
}

/// The buttons that the screens show.
#[derive(Clone, Copy, Debug, PartialEq, Eq, Structural)]
pub enum MenuButton {
    /// "Start Editor", on the main menu.
    StartEditor,
    /// "Credits", on the main menu.
    ShowCredits,
    /// "Quit", on the main menu.
    Quit,
    /// "Back to Menu", in the editor and on the credits screen.
    BackToMenu,
    /// "NAND", in the editor's component window.
    Nand,
    /// "NOR", in the editor's component window.
    Nor,
    /// "AND", in the editor's component window.
    And,
    /// "OR", in the editor's component window.
    Or,
}

/// What a click on a button asks the program to do.
#[derive(Clone, Copy, Debug, PartialEq, Eq, Structural)]
pub enum MenuAction {
    /// Show the given screen from the next frame on.
    Goto(GameState),
    /// End the program.
    Exit,
    /// Place a new gate of the given kind on the field.
    SpawnGate(GateType),
    /// Report that a gate of the given kind was asked for (not yet placed).
    Announce(GateType),
    /// The button is not shown on this screen: nothing happens.
    Ignore,
}

/// What a click on `button` does while `state` is shown.
pub open spec fn spec_menu_step(state: GameState, button: MenuButton) -> MenuAction {
    match (state, button) {
        (GameState::MainMenu, MenuButton::StartEditor) => MenuAction::Goto(GameState::Editor),
        (GameState::MainMenu, MenuButton::ShowCredits) => MenuAction::Goto(GameState::Credits),
        (GameState::MainMenu, MenuButton::Quit) => MenuAction::Exit,
        (GameState::Editor, MenuButton::BackToMenu) => MenuAction::Goto(GameState::MainMenu),
        (GameState::Editor, MenuButton::Nand) => MenuAction::SpawnGate(GateType::NAND),
        (GameState::Editor, MenuButton::Nor) => MenuAction::Announce(GateType::NOR),
        (GameState::Editor, MenuButton::And) => MenuAction::Announce(GateType::AND),
        (GameState::Editor, MenuButton::Or) => MenuAction::Announce(GateType::OR),
        (GameState::Credits, MenuButton::BackToMenu) => MenuAction::Goto(GameState::MainMenu),
        _ => MenuAction::Ignore,
    }
}

/// Decides what a click on `button` does while `state` is shown: the main
/// menu leads to the editor, to the credits, or out of the program; the
/// editor and the credits lead back to the main menu; in the editor, NAND
/// places a NAND gate and NOR, AND and OR are only reported.
pub fn menu_step(state: GameState, button: MenuButton) -> (a: MenuAction)
    ensures
        a == spec_menu_step(state, button),
        state == GameState::MainMenu && button == MenuButton::StartEditor ==> a == MenuAction::Goto(GameState::Editor),
        state == GameState::MainMenu && button == MenuButton::ShowCredits ==> a == MenuAction::Goto(GameState::Credits),
        state == GameState::MainMenu && button == MenuButton::Quit ==> a == MenuAction::Exit,
        state != GameState::MainMenu && button == MenuButton::BackToMenu ==> a == MenuAction::Goto(GameState::MainMenu),
        state == GameState::Editor && button == MenuButton::Nand ==> a == MenuAction::SpawnGate(GateType::NAND),
        state == GameState::Editor && button == MenuButton::Nor ==> a == MenuAction::Announce(GateType::NOR),
        state == GameState::Editor && button == MenuButton::And ==> a == MenuAction::Announce(GateType::AND),
        state == GameState::Editor && button == MenuButton::Or ==> a == MenuAction::Announce(GateType::OR),
        a == MenuAction::Ignore <==> !(
            (state == GameState::MainMenu && (button == MenuButton::StartEditor || button == MenuButton::ShowCredits || button == MenuButton::Quit))
            || (state != GameState::MainMenu && button == MenuButton::BackToMenu)
            || (state == GameState::Editor && (button == MenuButton::Nand || button == MenuButton::Nor || button == MenuButton::And || button == MenuButton::Or))),
{
    match state {
        GameState::MainMenu => match button {
            MenuButton::StartEditor => MenuAction::Goto(GameState::Editor),
            MenuButton::ShowCredits => MenuAction::Goto(GameState::Credits),
            MenuButton::Quit => MenuAction::Exit,
            _ => MenuAction::Ignore,
        },
        GameState::Editor => match button {
            MenuButton::BackToMenu => MenuAction::Goto(GameState::MainMenu),
            MenuButton::Nand => MenuAction::SpawnGate(GateType::NAND),
            MenuButton::Nor => MenuAction::Announce(GateType::NOR),
            MenuButton::And => MenuAction::Announce(GateType::AND),
            MenuButton::Or => MenuAction::Announce(GateType::OR),
            _ => MenuAction::Ignore,
        },
        GameState::Credits => match button {
            MenuButton::BackToMenu => MenuAction::Goto(GameState::MainMenu),
            _ => MenuAction::Ignore,
        },
    }
}

/// The menus start on the main menu.
impl Default for GameState {
    fn default() -> (s: GameState)
        ensures
            s == GameState::MainMenu,
    {
        GameState::MainMenu
    }
}

/// How the pointer is over the input button in this frame.
#[derive(Clone, Copy, Debug, PartialEq, Eq, Structural)]
pub enum ButtonInteraction {
    Pressed,
    Hovered,
    Idle,
}

/// The text the input button shows.
#[derive(Clone, Copy, Debug, PartialEq, Eq, Structural)]
pub enum ButtonLabel {
    Press,
    Hover,
    Button,
}

impl ButtonLabel {
    /// The words shown for the label.
    pub fn text(&self) -> (s: &'static str)
        ensures
            s@ == match *self {
                ButtonLabel::Press => "Press"@,
                ButtonLabel::Hover => "Hover"@,
                ButtonLabel::Button => "Button"@,
            },
    {
        match self {
            ButtonLabel::Press => "Press",
            ButtonLabel::Hover => "Hover",
            ButtonLabel::Button => "Button",
        }
    }
}

/// What the input button does in a frame.
#[derive(Clone, Copy, Debug, PartialEq, Eq, Structural)]
pub struct ButtonResponse {
    /// The circuit's input value after the frame.
    pub input: bool,
    /// The text the button shows.
    pub label: ButtonLabel,
    /// Whether the button takes the input focus (it gives it up otherwise).
    pub focus: bool,
    /// The digit that is reported, 1 or 0, when the input was toggled.
    pub report: Option<u8>,
}

/// The response of the input button to `interaction` when the input value is `input`.
pub open spec fn spec_react(input: bool, interaction: ButtonInteraction) -> ButtonResponse {
    match interaction {
        ButtonInteraction::Pressed => ButtonResponse {
            input: !input,
            label: ButtonLabel::Press,
            focus: true,
            report: Some(if !input { 1u8 } else { 0u8 }),
        },
        ButtonInteraction::Hovered => ButtonResponse {
            input,
            label: ButtonLabel::Hover,
            focus: true,
            report: None,
        },
        ButtonInteraction::Idle => ButtonResponse {
            input,
            label: ButtonLabel::Button,
            focus: false,
            report: None,
        },
    }
}

/// Decides the input button's frame: a press flips the input value, shows
/// "Press", takes the focus and reports the new value as 1 or 0; hovering
/// shows "Hover" and takes the focus; otherwise the button shows "Button"
/// and gives the focus up.
pub fn react(input: bool, interaction: ButtonInteraction) -> (r: ButtonResponse)
    ensures
        r == spec_react(input, interaction),
        interaction == ButtonInteraction::Pressed ==> r.input == !input,
        interaction != ButtonInteraction::Pressed ==> r.input == input,
        interaction == ButtonInteraction::Pressed ==> r.label == ButtonLabel::Press,
        interaction == ButtonInteraction::Hovered ==> r.label == ButtonLabel::Hover,
        interaction == ButtonInteraction::Idle ==> r.label == ButtonLabel::Button,
        r.focus == (interaction != ButtonInteraction::Idle),
        interaction == ButtonInteraction::Pressed ==> r.report == Some(if r.input { 1u8 } else { 0u8 }),
        interaction != ButtonInteraction::Pressed ==> r.report == None::<u8>,
{
    match interaction {
        ButtonInteraction::Pressed => {
            let flipped = !input;
            let digit: u8 = if flipped {
                1
            } else {
                0
            };
            ButtonResponse { input: flipped, label: ButtonLabel::Press, focus: true, report: Some(digit) }
        },
        ButtonInteraction::Hovered => ButtonResponse {
            input,
            label: ButtonLabel::Hover,
            focus: true,
            report: None,
        },
        ButtonInteraction::Idle => ButtonResponse {
            input,
            label: ButtonLabel::Button,
            focus: false,
            report: None,
        },
    }
}

/// The label depends on the interaction alone: "Press" for a press, "Hover"
/// for a hover and "Button" otherwise, whatever the input value.
pub proof fn law_label_follows_interaction(input: bool, interaction: ButtonInteraction)
    ensures
        spec_react(input, ButtonInteraction::Pressed).label == ButtonLabel::Press,
        spec_react(input, ButtonInteraction::Hovered).label == ButtonLabel::Hover,
        spec_react(input, ButtonInteraction::Idle).label == ButtonLabel::Button,
        spec_react(input, interaction).label == spec_react(!input, interaction).label,
{
}

/// Only a press reports a digit, and what it reports is 1 when the new input
/// value is true and 0 when it is false; hovering and idling report nothing.
pub proof fn law_only_press_reports(input: bool, interaction: ButtonInteraction)
    ensures
        spec_react(input, interaction).report is Some <==> interaction == ButtonInteraction::Pressed,
        spec_react(input, ButtonInteraction::Hovered).report == None::<u8>,
        spec_react(input, ButtonInteraction::Idle).report == None::<u8>,
        spec_react(false, ButtonInteraction::Pressed).report == Some(1u8),
        spec_react(true, ButtonInteraction::Pressed).report == Some(0u8),
{
}

/// The button holds the focus while it is pressed or hovered and lets it go
/// otherwise, whatever the input value; hovering and idling keep the input.
pub proof fn law_focus_and_input_by_interaction(input: bool, interaction: ButtonInteraction)
    ensures
        spec_react(input, interaction).focus <==> interaction != ButtonInteraction::Idle,
        interaction != ButtonInteraction::Pressed ==> spec_react(input, interaction).input == input,
        spec_react(input, ButtonInteraction::Pressed).input == !input,
{
}

/// Two presses of the input button give back the input value they started from.
pub proof fn law_two_presses_restore_input(input: bool)
    ensures
        spec_react(spec_react(input, ButtonInteraction::Pressed).input, ButtonInteraction::Pressed).input
            == input,
{
}

/// The input value after `k` presses of the input button, one after the other,
/// starting from `input`.
pub open spec fn input_after_presses(input: bool, k: nat) -> bool
    decreases k,
{
    if k == 0 {
        input
    } else {
        spec_react(input_after_presses(input, (k - 1) as nat), ButtonInteraction::Pressed).input
    }
}

/// `k` presses of the input button leave the input value flipped when `k` is
/// odd and as it was when `k` is even.
pub proof fn law_presses_flip_by_parity(input: bool, k: nat)
    ensures
        input_after_presses(input, k) == (input != (k % 2 == 1)),
    decreases k,
{
    if k > 0 {
        law_presses_flip_by_parity(input, (k - 1) as nat);
    }
}

/// Only a press changes the input value, and the digit a press reports is
/// the new value (1 for true, 0 for false).
pub proof fn law_only_press_changes_input(input: bool, interaction: ButtonInteraction)
    ensures
        spec_react(input, interaction).input != input <==> interaction == ButtonInteraction::Pressed,
        spec_react(input, interaction).report matches Some(d) ==> (d == 1u8 <==> spec_react(
            input,
            interaction,
        ).input),
{
}

/// From the editor and from the credits, "Back to Menu" returns to the main
/// menu; from the main menu, a screen change followed by "Back to Menu"
/// returns to the main menu.
pub proof fn law_back_returns_to_main_menu(state: GameState, button: MenuButton)
    ensures
        state != GameState::MainMenu ==> spec_menu_step(state, MenuButton::BackToMenu)
            == MenuAction::Goto(GameState::MainMenu),
        spec_menu_step(GameState::MainMenu, button) matches MenuAction::Goto(next) ==> spec_menu_step(
            next,
            MenuButton::BackToMenu,
        ) == MenuAction::Goto(GameState::MainMenu),
{
}

/// The program is only left from the main menu, and gates are only placed
/// from the editor.
pub proof fn law_exit_and_spawn_screens(state: GameState, button: MenuButton)
    ensures
        spec_menu_step(state, button) == MenuAction::Exit ==> state == GameState::MainMenu,
        spec_menu_step(state, button) is SpawnGate ==> state == GameState::Editor,
{
}

} // verus!
