use std::collections::BTreeMap;
use supershuckie::controls::{
    on_user_input, user_input_plan, ButtonEffect, Control, ControlModifier, ControlSetting, ControllerControls, Controls, HeldInputs,
    SystemAction,
};
use supershuckie::frontend::{ConnectedControllers, UserInput};
use supershuckie::input::Input;

fn setting(control: Control, modifier: ControlModifier) -> ControlSetting {
    ControlSetting { control, modifier }
}

#[test]
fn buttons_and_system_controls() {
    assert!(Control::A.is_button());
    assert!(Control::Right.is_button());
    assert!(!Control::Turbo.is_button());
    assert!(!Control::Reset.is_button());
    assert!(!Control::Pause.is_button());
}

#[test]
fn set_and_invert_buttons() {
    let mut i = Input::new();
    Control::X.set_for_input(&mut i, true);
    assert!(i.x && Control::X.is_held_in(&i));
    assert!(!i.a);
    Control::X.invert_for_input(&mut i);
    assert!(!i.x);
    Control::Up.invert_for_input(&mut i);
    assert!(i.d_up);
    // A control that is no button changes nothing.
    let before = i;
    Control::Pause.set_for_input(&mut i, true);
    assert_eq!(i, before);
}

#[test]
fn normal_buttons_are_enqueued() {
    let mut held = HeldInputs::new();
    match held.apply_button(setting(Control::B, ControlModifier::Normal), true) {
        ButtonEffect::EnqueueInput(i) => assert!(i.b),
        other => panic!("unexpected {other:?}"),
    }
    match held.apply_button(setting(Control::B, ControlModifier::Normal), false) {
        ButtonEffect::EnqueueInput(i) => assert!(i.is_empty()),
        other => panic!("unexpected {other:?}"),
    }
}

#[test]
fn rapid_buttons_start_and_stop_rapid_fire() {
    let mut held = HeldInputs::new();
    // Releasing without rapid fire does nothing.
    assert!(matches!(held.apply_button(setting(Control::A, ControlModifier::Rapid), false), ButtonEffect::Nothing));
    match held.apply_button(setting(Control::A, ControlModifier::Rapid), true) {
        ButtonEffect::SetRapidFire(Some(r)) => {
            assert!(r.input.a);
            assert_eq!((r.hold_length, r.interval), (3, 3));
        }
        other => panic!("unexpected {other:?}"),
    }
    assert!(matches!(
        held.apply_button(setting(Control::A, ControlModifier::Rapid), false),
        ButtonEffect::SetRapidFire(None)
    ));
    assert!(held.rapid_fire.is_none());
}

#[test]
fn toggles_flip_on_press_only() {
    let mut held = HeldInputs::new();
    assert!(matches!(held.apply_button(setting(Control::L, ControlModifier::Toggle), false), ButtonEffect::Nothing));
    match held.apply_button(setting(Control::L, ControlModifier::Toggle), true) {
        ButtonEffect::SetToggled(Some(t)) => assert!(t.l),
        other => panic!("unexpected {other:?}"),
    }
    match held.apply_button(setting(Control::L, ControlModifier::Toggle), true) {
        ButtonEffect::SetToggled(Some(t)) => assert!(t.is_empty()),
        other => panic!("unexpected {other:?}"),
    }
}

#[test]
fn input_plans() {
    let plan = user_input_plan(Control::A, true, true, true, true, true, true);
    assert!(plan.stop_playback && plan.unpause);
    assert_eq!(plan.system, SystemAction::Nothing);
    let plan = user_input_plan(Control::A, false, true, true, true, true, true);
    assert!(!plan.stop_playback && !plan.unpause);
    assert_eq!(user_input_plan(Control::Turbo, false, false, false, false, false, true).system, SystemAction::Turbo);
    assert_eq!(user_input_plan(Control::Reset, true, false, false, false, false, true).system, SystemAction::HardReset);
    assert_eq!(user_input_plan(Control::Reset, false, false, false, false, false, true).system, SystemAction::Nothing);
    assert_eq!(user_input_plan(Control::Pause, true, false, false, false, true, true).system, SystemAction::SetPaused(false));
    assert_eq!(user_input_plan(Control::Pause, true, false, false, false, false, true).system, SystemAction::SetPaused(true));
    assert_eq!(user_input_plan(Control::Pause, true, false, false, false, false, false).system, SystemAction::Nothing);
}

#[test]
fn bindings_are_found_by_device() {
    let mut keyboard = BTreeMap::new();
    keyboard.insert(65, setting(Control::A, ControlModifier::Normal));
    let mut buttons = BTreeMap::new();
    buttons.insert(1, setting(Control::B, ControlModifier::Rapid));
    let mut axis = BTreeMap::new();
    axis.insert(2, setting(Control::Turbo, ControlModifier::Normal));
    let controls = Controls {
        keyboard_controls: keyboard,
        controller_controls: vec![ControllerControls { name: String::from("pad"), buttons, axis }],
    };
    let mut connected = ConnectedControllers::new();
    let pad = connected.connect("pad");
    let other = connected.connect("stick");
    assert_eq!(
        controls.control_for(&connected, UserInput::Keyboard { keycode: 65 }),
        Some(setting(Control::A, ControlModifier::Normal))
    );
    assert_eq!(controls.control_for(&connected, UserInput::Keyboard { keycode: 66 }), None);
    assert_eq!(
        controls.control_for(&connected, UserInput::Button { controller: pad, button: 1 }),
        Some(setting(Control::B, ControlModifier::Rapid))
    );
    assert_eq!(
        controls.control_for(&connected, UserInput::Axis { controller: pad, axis: 2 }),
        Some(setting(Control::Turbo, ControlModifier::Normal))
    );
    assert_eq!(controls.control_for(&connected, UserInput::Button { controller: other, button: 1 }), None);
    assert_eq!(controls.control_for(&connected, UserInput::Button { controller: 99, button: 1 }), None);
}

#[test]
fn whole_user_input_handling() {
    let mut keyboard = BTreeMap::new();
    keyboard.insert(1, setting(Control::A, ControlModifier::Normal));
    keyboard.insert(2, setting(Control::Pause, ControlModifier::Normal));
    let controls = Controls { keyboard_controls: keyboard, controller_controls: Vec::new() };
    let connected = ConnectedControllers::new();
    let mut held = HeldInputs::new();
    held.current_input.b = true;

    // No game running: nothing happens.
    assert!(on_user_input(&mut held, None, &connected, UserInput::Keyboard { keycode: 1 }, true, true, true, true, true).is_none());
    // Unbound key: nothing happens.
    assert!(on_user_input(&mut held, Some(&controls), &connected, UserInput::Keyboard { keycode: 9 }, true, true, true, true, true).is_none());
    assert!(held.current_input.b);

    // Pressing a button while playing back stops playback, which releases B first.
    let outcome = on_user_input(&mut held, Some(&controls), &connected, UserInput::Keyboard { keycode: 1 }, true, true, true, true, true).unwrap();
    assert!(outcome.stop_playback && outcome.unpause);
    match outcome.button {
        ButtonEffect::EnqueueInput(i) => assert!(i.a && !i.b),
        other => panic!("unexpected {other:?}"),
    }

    // The pause control flips pausing.
    let outcome = on_user_input(&mut held, Some(&controls), &connected, UserInput::Keyboard { keycode: 2 }, true, true, true, true, true).unwrap();
    assert_eq!(outcome.system, SystemAction::SetPaused(false));
    assert!(matches!(outcome.button, ButtonEffect::Nothing));
}
