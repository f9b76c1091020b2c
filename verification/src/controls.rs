use crate::core_state::SuperShuckieRapidFire;
use crate::frontend::{ConnectedControllers, UserInput};
use crate::input::Input;
use std::collections::BTreeMap;
use vstd::prelude::*;

verus! {

/// What a key, button or axis of the user's devices is bound to.
#[derive(Copy, Clone, Debug, PartialEq, Eq, Structural)]
pub enum Control {
    A,
    B,
    Start,
    Select,
    Up,
    Down,
    Left,
    Right,
    L,
    R,
    X,
    Y,
    /// Speed the game up by how far the input is pressed.
    Turbo,
    /// Hard reset the console.
    Reset,
    /// Pause or unpause.
    Pause,
}

/// How a button control acts on the console's input.
#[derive(Copy, Clone, Debug, PartialEq, Eq, Structural)]
pub enum ControlModifier {
    /// The button is held while the control is held.
    Normal,
    /// The button is pressed and released over and over while the control is held.
    Rapid,
    /// Each press of the control flips whether the button is held.
    Toggle,
}

/// A control with its modifier.
#[derive(Copy, Clone, Debug, PartialEq, Eq, Structural)]
pub struct ControlSetting {
    pub control: Control,
    pub modifier: ControlModifier,
}

/// A control that presses a button of the console.
pub open spec fn spec_is_button(control: Control) -> bool {
    !(control is Turbo || control is Reset || control is Pause)
}

/// Whether the button of `control` is held in `input`.
pub open spec fn spec_button_of(input: Input, control: Control) -> bool {
    match control {
        Control::A => input.a,
        Control::B => input.b,
        Control::Start => input.start,
        Control::Select => input.select,
        Control::Up => input.d_up,
        Control::Down => input.d_down,
        Control::Left => input.d_left,
        Control::Right => input.d_right,
        Control::L => input.l,
        Control::R => input.r,
        Control::X => input.x,
        Control::Y => input.y,
        _ => false,
    }
}

/// `input` with the button of `control` set to `pressed`, and nothing else
/// changed (nothing changes for a control that is no button).
pub open spec fn spec_with_button(input: Input, control: Control, pressed: bool) -> Input {
    Input {
        a: if control is A { pressed } else { input.a },
        b: if control is B { pressed } else { input.b },
        x: if control is X { pressed } else { input.x },
        y: if control is Y { pressed } else { input.y },
        start: if control is Start { pressed } else { input.start },
        select: if control is Select { pressed } else { input.select },
        l: if control is L { pressed } else { input.l },
        r: if control is R { pressed } else { input.r },
        d_up: if control is Up { pressed } else { input.d_up },
        d_down: if control is Down { pressed } else { input.d_down },
        d_left: if control is Left { pressed } else { input.d_left },
        d_right: if control is Right { pressed } else { input.d_right },
        touch: input.touch,
    }
}

impl Control {
    /// Return `true` if this control presses a button of the console.
    pub fn is_button(&self) -> (r: bool)
        ensures
            r == spec_is_button(*self),
    {
        match self {
            Control::Turbo | Control::Reset | Control::Pause => false,
            _ => true,
        }
    }

    /// Return `true` if the button of this control is held in `input`.
    pub fn is_held_in(&self, input: &Input) -> (r: bool)
        ensures
            r == spec_button_of(*input, *self),
    {
        match self {
            Control::A => input.a,
            Control::B => input.b,
            Control::Start => input.start,
            Control::Select => input.select,
            Control::Up => input.d_up,
            Control::Down => input.d_down,
            Control::Left => input.d_left,
            Control::Right => input.d_right,
            Control::L => input.l,
            Control::R => input.r,
            Control::X => input.x,
            Control::Y => input.y,
            _ => false,
        }
    }

    /// Set the button of this control in `input` to `pressed`.
    pub fn set_for_input(&self, input: &mut Input, pressed: bool)
        ensures
            *final(input) == spec_with_button(*old(input), *self, pressed),
    {
        let c = *self;
        let i = *input;
        *input = Input {
            a: if matches!(c, Control::A) { pressed } else { i.a },
            b: if matches!(c, Control::B) { pressed } else { i.b },
            x: if matches!(c, Control::X) { pressed } else { i.x },
            y: if matches!(c, Control::Y) { pressed } else { i.y },
            start: if matches!(c, Control::Start) { pressed } else { i.start },
            select: if matches!(c, Control::Select) { pressed } else { i.select },
            l: if matches!(c, Control::L) { pressed } else { i.l },
            r: if matches!(c, Control::R) { pressed } else { i.r },
            d_up: if matches!(c, Control::Up) { pressed } else { i.d_up },
            d_down: if matches!(c, Control::Down) { pressed } else { i.d_down },
            d_left: if matches!(c, Control::Left) { pressed } else { i.d_left },
            d_right: if matches!(c, Control::Right) { pressed } else { i.d_right },
            touch: i.touch,
        };
    }

    /// Flip the button of this control in `input`.
    pub fn invert_for_input(&self, input: &mut Input)
        ensures
            *final(input) == spec_with_button(*old(input), *self, !spec_button_of(*old(input), *self)),
    {
        let held = self.is_held_in(input);
        self.set_for_input(input, !held);
    }
}

/// Setting a button and then reading it back gives what was set, and every
/// other button keeps its state.
pub proof fn law_set_then_read_button(input: Input, control: Control, other: Control, pressed: bool)
    requires
        spec_is_button(control),
        other != control,
    ensures
        spec_button_of(spec_with_button(input, control, pressed), control) == pressed,
        spec_button_of(spec_with_button(input, control, pressed), other) == spec_button_of(input, other),
        spec_with_button(input, control, pressed).touch == input.touch,
{
}

/// Each button control presses the console button of the same name, and
/// only that one: `A` the A button, `Start` the Start button, `Up` the up
/// direction of the D-pad, and so on; turbo, reset and pause press nothing.
/// A control reads back the state of the button of its name.
pub proof fn law_controls_press_their_own_buttons(input: Input, p: bool)
    ensures
        spec_with_button(input, Control::A, p) == (Input { a: p, ..input }),
        spec_with_button(input, Control::B, p) == (Input { b: p, ..input }),
        spec_with_button(input, Control::X, p) == (Input { x: p, ..input }),
        spec_with_button(input, Control::Y, p) == (Input { y: p, ..input }),
        spec_with_button(input, Control::Start, p) == (Input { start: p, ..input }),
        spec_with_button(input, Control::Select, p) == (Input { select: p, ..input }),
        spec_with_button(input, Control::L, p) == (Input { l: p, ..input }),
        spec_with_button(input, Control::R, p) == (Input { r: p, ..input }),
        spec_with_button(input, Control::Up, p) == (Input { d_up: p, ..input }),
        spec_with_button(input, Control::Down, p) == (Input { d_down: p, ..input }),
        spec_with_button(input, Control::Left, p) == (Input { d_left: p, ..input }),
        spec_with_button(input, Control::Right, p) == (Input { d_right: p, ..input }),
        spec_with_button(input, Control::Turbo, p) == input,
        spec_with_button(input, Control::Reset, p) == input,
        spec_with_button(input, Control::Pause, p) == input,
        spec_button_of(input, Control::A) == input.a,
        spec_button_of(input, Control::B) == input.b,
        spec_button_of(input, Control::X) == input.x,
        spec_button_of(input, Control::Y) == input.y,
        spec_button_of(input, Control::Start) == input.start,
        spec_button_of(input, Control::Select) == input.select,
        spec_button_of(input, Control::L) == input.l,
        spec_button_of(input, Control::R) == input.r,
        spec_button_of(input, Control::Up) == input.d_up,
        spec_button_of(input, Control::Down) == input.d_down,
        spec_button_of(input, Control::Left) == input.d_left,
        spec_button_of(input, Control::Right) == input.d_right,
{
}

/// Flipping a button twice gives the input back.
pub proof fn law_invert_twice(input: Input, control: Control)
    ensures
        ({
            let once = spec_with_button(input, control, !spec_button_of(input, control));
            spec_with_button(once, control, !spec_button_of(once, control)) == input
        }),
{
}

/// The inputs that the frontend holds on behalf of the user.
#[derive(Copy, Clone, Debug)]
pub struct HeldInputs {
    /// The buttons held with the normal modifier.
    pub current_input: Input,
    /// The buttons held with the rapid modifier, if any.
    pub rapid_fire: Option<SuperShuckieRapidFire>,
    /// The buttons toggled on, once anything was toggled.
    pub toggled: Option<Input>,
}

/// What the core is to be told after a button control changed.
#[derive(Copy, Clone, Debug)]
pub enum ButtonEffect {
    /// Enqueue this input.
    EnqueueInput(Input),
    /// Set (or clear) the rapid fire input.
    SetRapidFire(Option<SuperShuckieRapidFire>),
    /// Set the toggled input.
    SetToggled(Option<Input>),
    /// Nothing changed.
    Nothing,
}

/// A rapid fire that holds for three frames and releases for three.
pub open spec fn new_rapid_fire() -> SuperShuckieRapidFire {
    SuperShuckieRapidFire {
        input: Input::spec_empty(),
        hold_length: 3,
        interval: 3,
        current_frame: 0,
        total_frames: 0,
    }
}

impl HeldInputs {
    /// The rapid fire input, if any, has a hold length and interval that are not 0.
    pub open spec fn wf(&self) -> bool {
        self.rapid_fire matches Some(r) ==> r.is_valid()
    }

    /// Nothing held.
    pub fn new() -> (r: HeldInputs)
        ensures
            r.wf(),
            r.current_input == Input::spec_empty(),
            r.rapid_fire is None,
            r.toggled is None,
    {
        HeldInputs { current_input: Input::new(), rapid_fire: None, toggled: None }
    }

    /// The held inputs after a button control is pressed (or released), and
    /// what the core is to be told.
    pub open spec fn after_button(self, setting: ControlSetting, pressed: bool) -> (HeldInputs, ButtonEffect) {
        let control = setting.control;
        match setting.modifier {
            ControlModifier::Normal => {
                let current = spec_with_button(self.current_input, control, pressed);
                (HeldInputs { current_input: current, ..self }, ButtonEffect::EnqueueInput(current))
            },
            ControlModifier::Rapid => {
                if self.rapid_fire is None && !pressed {
                    (self, ButtonEffect::Nothing)
                } else {
                    let base = match self.rapid_fire {
                        Some(r) => r,
                        None => new_rapid_fire(),
                    };
                    let changed = SuperShuckieRapidFire {
                        input: spec_with_button(base.input, control, pressed),
                        ..base
                    };
                    let rapid = if !pressed && changed.input == Input::spec_empty() {
                        None
                    } else {
                        Some(changed)
                    };
                    (HeldInputs { rapid_fire: rapid, ..self }, ButtonEffect::SetRapidFire(rapid))
                }
            },
            ControlModifier::Toggle => {
                if !pressed {
                    (self, ButtonEffect::Nothing)
                } else {
                    let base = match self.toggled {
                        Some(t) => t,
                        None => Input::spec_empty(),
                    };
                    let flipped = spec_with_button(base, control, !spec_button_of(base, control));
                    (HeldInputs { toggled: Some(flipped), ..self }, ButtonEffect::SetToggled(Some(flipped)))
                }
            },
        }
    }

    /// Press (or release) a button control, and return what the core is to be told.
    pub fn apply_button(&mut self, setting: ControlSetting, pressed: bool) -> (r: ButtonEffect)
        requires
            old(self).wf(),
        ensures
            final(self).wf(),
            (*final(self), r) == old(self).after_button(setting, pressed),
    {
        let control = setting.control;
        match setting.modifier {
            ControlModifier::Normal => {
                control.set_for_input(&mut self.current_input, pressed);
                ButtonEffect::EnqueueInput(self.current_input)
            },
            ControlModifier::Rapid => {
                if self.rapid_fire.is_none() && !pressed {
                    return ButtonEffect::Nothing;
                }
                let mut rapid = match self.rapid_fire {
                    Some(r) => r,
                    None => {
                        let mut r = SuperShuckieRapidFire::default();
                        r.hold_length = 3;
                        r.interval = 3;
                        r
                    },
                };
                control.set_for_input(&mut rapid.input, pressed);
                if !pressed && rapid.input.is_empty() {
                    self.rapid_fire = None;
                } else {
                    self.rapid_fire = Some(rapid);
                }
                ButtonEffect::SetRapidFire(self.rapid_fire)
            },
            ControlModifier::Toggle => {
                if !pressed {
                    return ButtonEffect::Nothing;
                }
                let mut toggled = match self.toggled {
                    Some(t) => t,
                    None => Input::new(),
                };
                control.invert_for_input(&mut toggled);
                self.toggled = Some(toggled);
                ButtonEffect::SetToggled(self.toggled)
            },
        }
    }
}

/// Releasing every button held with the rapid modifier ends rapid fire.
pub proof fn law_rapid_release_clears(held: HeldInputs, control: Control, r: SuperShuckieRapidFire)
    requires
        held.rapid_fire == Some(r),
        r.input == Input::spec_empty(),
    ensures
        held.after_button(ControlSetting { control, modifier: ControlModifier::Rapid }, false).0.rapid_fire is None,
{
    assert(spec_with_button(Input::spec_empty(), control, false) == Input::spec_empty());
}

/// Pressing a toggle control twice leaves the toggled buttons as they were
/// (once something was toggled).
pub proof fn law_toggle_twice(held: HeldInputs, setting: ControlSetting, t: Input)
    requires
        setting.modifier is Toggle,
        held.toggled == Some(t),
    ensures
        held.after_button(setting, true).0.after_button(setting, true).0 == held,
{
    let c = setting.control;
    let once = spec_with_button(t, c, !spec_button_of(t, c));
    let twice = spec_with_button(once, c, !spec_button_of(once, c));
    assert(twice == t);
}

/// What a control that is no button does.
#[derive(Copy, Clone, Debug, PartialEq, Eq, Structural)]
pub enum SystemAction {
    /// Apply turbo by how far the input is pressed.
    Turbo,
    /// Hard reset the console.
    HardReset,
    /// Pause or unpause (to the opposite of now).
    SetPaused(bool),
    /// Nothing.
    Nothing,
}

/// What happens around a control change: playback that stops, a pause that
/// ends, and what a control that is no button does.
#[derive(Copy, Clone, Debug, PartialEq, Eq, Structural)]
pub struct UserInputPlan {
    pub stop_playback: bool,
    pub unpause: bool,
    pub system: SystemAction,
}

/// The plan for a control change, as the frontend makes it.
pub open spec fn spec_user_input_plan(
    control: Control,
    pressed: bool,
    auto_stop_playback_on_input: bool,
    playing_back: bool,
    auto_unpause_on_input: bool,
    paused: bool,
    game_running: bool,
) -> UserInputPlan {
    if spec_is_button(control) {
        UserInputPlan {
            stop_playback: pressed && auto_stop_playback_on_input && playing_back,
            unpause: pressed && auto_unpause_on_input && paused,
            system: SystemAction::Nothing,
        }
    } else {
        UserInputPlan {
            stop_playback: false,
            unpause: false,
            system: if !game_running {
                SystemAction::Nothing
            } else {
                match control {
                    Control::Turbo => SystemAction::Turbo,
                    Control::Reset => if pressed { SystemAction::HardReset } else { SystemAction::Nothing },
                    _ => if pressed { SystemAction::SetPaused(!paused) } else { SystemAction::Nothing },
                }
            },
        }
    }
}

/// Decide what a control change does besides pressing buttons. A value over
/// one half counts as pressed.
pub fn user_input_plan(
    control: Control,
    pressed: bool,
    auto_stop_playback_on_input: bool,
    playing_back: bool,
    auto_unpause_on_input: bool,
    paused: bool,
    game_running: bool,
) -> (r: UserInputPlan)
    ensures
        r == spec_user_input_plan(
            control,
            pressed,
            auto_stop_playback_on_input,
            playing_back,
            auto_unpause_on_input,
            paused,
            game_running,
        ),
{
    if control.is_button() {
        UserInputPlan {
            stop_playback: pressed && auto_stop_playback_on_input && playing_back,
            unpause: pressed && auto_unpause_on_input && paused,
            system: SystemAction::Nothing,
        }
    } else {
        let system = if !game_running {
            SystemAction::Nothing
        } else {
            match control {
                Control::Turbo => SystemAction::Turbo,
                Control::Reset => if pressed { SystemAction::HardReset } else { SystemAction::Nothing },
                _ => if pressed { SystemAction::SetPaused(!paused) } else { SystemAction::Nothing },
            }
        };
        UserInputPlan { stop_playback: false, unpause: false, system }
    }
}

/// The bindings of one controller, known by its name.
#[derive(Clone, Debug)]
pub struct ControllerControls {
    pub name: String,
    pub buttons: BTreeMap<i32, ControlSetting>,
    pub axis: BTreeMap<i32, ControlSetting>,
}

/// The bindings of the keyboard and of each known controller.
#[derive(Clone, Debug)]
pub struct Controls {
    pub keyboard_controls: BTreeMap<i32, ControlSetting>,
    pub controller_controls: Vec<ControllerControls>,
}

/// The index of the first controller bindings named `name`, if any.
pub open spec fn first_named(controllers: Seq<ControllerControls>, name: Seq<char>) -> Option<int> {
    if exists|i: int| 0 <= i < controllers.len() && #[trigger] controllers[i].name@ == name {
        Some(choose|i: int| 0 <= i < controllers.len() && controllers[i].name@ == name
            && forall|j: int| 0 <= j < i ==> #[trigger] controllers[j].name@ != name)
    } else {
        None
    }
}

/// The binding of `key` in `m`, if any.
pub open spec fn binding(m: Map<i32, ControlSetting>, key: i32) -> Option<ControlSetting> {
    if m.contains_key(key) { Some(m[key]) } else { None }
}

/// The binding that an input of the user's devices has, if any: keys by the
/// keyboard bindings; buttons and axes by the bindings named like the
/// connected controller they come from.
pub open spec fn spec_control_for(controls: Controls, connected: Map<u32, Seq<char>>, input: UserInput) -> Option<ControlSetting> {
    match input {
        UserInput::Keyboard { keycode } => binding(controls.keyboard_controls@, keycode),
        UserInput::Button { controller, button } => {
            if !connected.contains_key(controller) {
                None
            } else {
                match first_named(controls.controller_controls@, connected[controller]) {
                    Some(i) => binding(controls.controller_controls@[i].buttons@, button),
                    None => None,
                }
            }
        },
        UserInput::Axis { controller, axis } => {
            if !connected.contains_key(controller) {
                None
            } else {
                match first_named(controls.controller_controls@, connected[controller]) {
                    Some(i) => binding(controls.controller_controls@[i].axis@, axis),
                    None => None,
                }
            }
        },
    }
}

fn binding_of(m: &BTreeMap<i32, ControlSetting>, key: i32) -> (r: Option<ControlSetting>)
    ensures
        r == binding(m@, key),
{
    match m.get(&key) {
        Some(s) => Some(*s),
        None => None,
    }
}

fn find_named(controllers: &Vec<ControllerControls>, name: &String) -> (r: Option<usize>)
    ensures
        match r {
            Some(i) => i < controllers@.len() && first_named(controllers@, name@) == Some(i as int),
            None => first_named(controllers@, name@) is None,
        },
{
    let mut i: usize = 0;
    while i < controllers.len()
        invariant
            i <= controllers@.len(),
            forall|j: int| 0 <= j < i ==> #[trigger] controllers@[j].name@ != name@,
        decreases controllers@.len() - i,
    {
        if controllers[i].name == *name {
            proof {
                let k = i as int;
                assert(0 <= k < controllers@.len() && controllers@[k].name@ == name@);
                let c = choose|c: int| 0 <= c < controllers@.len() && controllers@[c].name@ == name@
                    && forall|j: int| 0 <= j < c ==> #[trigger] controllers@[j].name@ != name@;
                assert(0 <= k < controllers@.len() && controllers@[k].name@ == name@
                    && forall|j: int| 0 <= j < k ==> #[trigger] controllers@[j].name@ != name@);
                if c < k {
                    assert(controllers@[c].name@ != name@);
                }
                if k < c {
                    assert(controllers@[k].name@ != name@);
                }
            }
            return Some(i);
        }
        i = i + 1;
    }
    None
}

impl Controls {
    /// The binding that an input of the user's devices has, if any.
    pub fn control_for(&self, connected: &ConnectedControllers, input: UserInput) -> (r: Option<ControlSetting>)
        ensures
            r == spec_control_for(*self, connected.view(), input),
    {
        match input {
            UserInput::Keyboard { keycode } => binding_of(&self.keyboard_controls, keycode),
            UserInput::Button { controller, button } => {
                match connected.name_of(controller) {
                    None => None,
                    Some(name) => match find_named(&self.controller_controls, name) {
                        Some(i) => binding_of(&self.controller_controls[i].buttons, button),
                        None => None,
                    },
                }
            },
            UserInput::Axis { controller, axis } => {
                match connected.name_of(controller) {
                    None => None,
                    Some(name) => match find_named(&self.controller_controls, name) {
                        Some(i) => binding_of(&self.controller_controls[i].axis, axis),
                        None => None,
                    },
                }
            },
        }
    }
}

/// What a change of a user's input leads to: playback to stop, a pause to
/// end, what the core is told about buttons, and what a control that is no
/// button does.
#[derive(Copy, Clone, Debug)]
pub struct UserInputOutcome {
    pub stop_playback: bool,
    pub unpause: bool,
    pub button: ButtonEffect,
    pub system: SystemAction,
}

/// The held inputs and the outcome after a change of the user's input, as
/// the frontend handles it: nothing without a running game or without a
/// binding; for a button, stopping playback first releases the normally held
/// buttons.
pub open spec fn spec_on_user_input(
    held: HeldInputs,
    controls: Option<Controls>,
    connected: Map<u32, Seq<char>>,
    input: UserInput,
    pressed: bool,
    auto_stop_playback_on_input: bool,
    playing_back: bool,
    auto_unpause_on_input: bool,
    paused: bool,
) -> (HeldInputs, Option<UserInputOutcome>) {
    match controls {
        None => (held, None),
        Some(c) => match spec_control_for(c, connected, input) {
            None => (held, None),
            Some(setting) => {
                let plan = spec_user_input_plan(
                    setting.control,
                    pressed,
                    auto_stop_playback_on_input,
                    playing_back,
                    auto_unpause_on_input,
                    paused,
                    true,
                );
                if spec_is_button(setting.control) {
                    let before = if plan.stop_playback {
                        HeldInputs { current_input: Input::spec_empty(), ..held }
                    } else {
                        held
                    };
                    let (after, effect) = before.after_button(setting, pressed);
                    (after, Some(UserInputOutcome {
                        stop_playback: plan.stop_playback,
                        unpause: plan.unpause,
                        button: effect,
                        system: plan.system,
                    }))
                } else {
                    (held, Some(UserInputOutcome {
                        stop_playback: false,
                        unpause: false,
                        button: ButtonEffect::Nothing,
                        system: plan.system,
                    }))
                }
            },
        },
    }
}

/// Handle a change of the user's input: `controls` are the bindings of the
/// running game's system (`None` without a game), `pressed` whether the
/// input counts as pressed.
pub fn on_user_input(
    held: &mut HeldInputs,
    controls: Option<&Controls>,
    connected: &ConnectedControllers,
    input: UserInput,
    pressed: bool,
    auto_stop_playback_on_input: bool,
    playing_back: bool,
    auto_unpause_on_input: bool,
    paused: bool,
) -> (r: Option<UserInputOutcome>)
    requires
        old(held).wf(),
    ensures
        final(held).wf(),
        (*final(held), r) == spec_on_user_input(
            *old(held),
            match controls { Some(c) => Some(*c), None => None },
            connected.view(),
            input,
            pressed,
            auto_stop_playback_on_input,
            playing_back,
            auto_unpause_on_input,
            paused,
        ),
{
    let controls = match controls {
        Some(c) => c,
        None => return None,
    };
    let setting = match controls.control_for(connected, input) {
        Some(s) => s,
        None => return None,
    };
    let plan = user_input_plan(
        setting.control,
        pressed,
        auto_stop_playback_on_input,
        playing_back,
        auto_unpause_on_input,
        paused,
        true,
    );
    if setting.control.is_button() {
        if plan.stop_playback {
            held.current_input = Input::new();
        }
        let effect = held.apply_button(setting, pressed);
        Some(UserInputOutcome { stop_playback: plan.stop_playback, unpause: plan.unpause, button: effect, system: plan.system })
    } else {
        Some(UserInputOutcome { stop_playback: false, unpause: false, button: ButtonEffect::Nothing, system: plan.system })
    }
}

} // verus!
