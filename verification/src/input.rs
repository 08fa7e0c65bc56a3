//! Logical input actions: binding raw triggers to actions, sampling their
//! edge state once per tick, and packing the held actions into sixteen bits.
//!
//! An action is named by a `u16` code. Any code can be bound and sampled;
//! only the codes below sixteen take part in packing.

use bevy::input::keyboard::KeyCode;
use bevy::input::mouse::MouseButton;
use bevy::input::Input;
use std::collections::HashMap;
use std::hash::Hash;
use vstd::prelude::*;
use vstd::std_specs::iter::IteratorSpec;

verus! {

/// The keyboard key type of the engine, carried as an opaque value.
#[verifier::external_type_specification]
#[verifier::external_body]
pub struct ExKeyCode(bevy::input::keyboard::KeyCode);

/// The mouse button type of the engine, carried as an opaque value.
#[verifier::external_type_specification]
#[verifier::external_body]
pub struct ExMouseButton(bevy::input::mouse::MouseButton);

/// The engine's record of which inputs are held, were just pressed and were
/// just released, carried as an opaque value.
#[verifier::external_type_specification]
#[verifier::external_body]
#[verifier::reject_recursive_types(T)]
pub struct ExInput<T: Eq + Hash>(bevy::input::Input<T>);

/// The keys in the `just_pressed` set of a keyboard record.
pub uninterp spec fn keys_just_pressed(input: Input<KeyCode>) -> Set<KeyCode>;

/// The keys in the `pressed` set of a keyboard record.
pub uninterp spec fn keys_pressed(input: Input<KeyCode>) -> Set<KeyCode>;

/// The keys in the `just_released` set of a keyboard record.
pub uninterp spec fn keys_just_released(input: Input<KeyCode>) -> Set<KeyCode>;

/// The buttons in the `just_pressed` set of a mouse record.
pub uninterp spec fn buttons_just_pressed(input: Input<MouseButton>) -> Set<MouseButton>;

/// The buttons in the `pressed` set of a mouse record.
pub uninterp spec fn buttons_pressed(input: Input<MouseButton>) -> Set<MouseButton>;

/// The buttons in the `just_released` set of a mouse record.
pub uninterp spec fn buttons_just_released(input: Input<MouseButton>) -> Set<MouseButton>;

/// Calls `bevy::input::Input::just_pressed` on the keyboard record.
/// Trusted: it answers whether the key is in the record's `just_pressed`
/// set.
#[verifier::external_body]
fn keyboard_just_pressed(input: &Input<KeyCode>, key: KeyCode) -> (r: bool)
    ensures
        r == keys_just_pressed(*input).contains(key),
{
    input.just_pressed(key)
}

/// Calls `bevy::input::Input::pressed` on the keyboard record. Trusted: it
/// answers whether the key is in the record's `pressed` set.
#[verifier::external_body]
fn keyboard_pressed(input: &Input<KeyCode>, key: KeyCode) -> (r: bool)
    ensures
        r == keys_pressed(*input).contains(key),
{
    input.pressed(key)
}

/// Calls `bevy::input::Input::just_released` on the keyboard record.
/// Trusted: it answers whether the key is in the record's `just_released`
/// set.
#[verifier::external_body]
fn keyboard_just_released(input: &Input<KeyCode>, key: KeyCode) -> (r: bool)
    ensures
        r == keys_just_released(*input).contains(key),
{
    input.just_released(key)
}

/// Calls `bevy::input::Input::just_pressed` on the mouse record. Trusted:
/// it answers whether the button is in the record's `just_pressed` set.
#[verifier::external_body]
fn mouse_just_pressed(input: &Input<MouseButton>, button: MouseButton) -> (r: bool)
    ensures
        r == buttons_just_pressed(*input).contains(button),
{
    input.just_pressed(button)
}

/// Calls `bevy::input::Input::pressed` on the mouse record. Trusted: it
/// answers whether the button is in the record's `pressed` set.
#[verifier::external_body]
fn mouse_pressed(input: &Input<MouseButton>, button: MouseButton) -> (r: bool)
    ensures
        r == buttons_pressed(*input).contains(button),
{
    input.pressed(button)
}

/// Calls `bevy::input::Input::just_released` on the mouse record. Trusted:
/// it answers whether the button is in the record's `just_released` set.
#[verifier::external_body]
fn mouse_just_released(input: &Input<MouseButton>, button: MouseButton) -> (r: bool)
    ensures
        r == buttons_just_released(*input).contains(button),
{
    input.just_released(button)
}

/// Compares two keys with the `==` that `bevy` derives for
/// `bevy::input::keyboard::KeyCode`. Trusted: it holds exactly when the two
/// are the same key.
#[verifier::external_body]
fn same_key(a: KeyCode, b: KeyCode) -> (r: bool)
    ensures
        r == (a == b),
{
    a == b
}

/// Compares two buttons with the `==` that `bevy` derives for
/// `bevy::input::mouse::MouseButton`. Trusted: it holds exactly when the two
/// are the same button.
#[verifier::external_body]
fn same_button(a: MouseButton, b: MouseButton) -> (r: bool)
    ensures
        r == (a == b),
{
    a == b
}

/// Edge-triggered state of one logical action. The variants stand in the
/// order of [`KeyState::rank`], lowest first.
#[derive(Clone, Copy, Debug, PartialEq, Eq, Structural, Hash, PartialOrd, Ord)]
pub enum KeyState {
    Released,
    JustReleased,
    JustPressed,
    Pressed,
}

impl KeyState {
    /// Whether the action counts as held: the one bit that is transmitted.
    pub open spec fn spec_is_down(self) -> bool {
        self == KeyState::JustPressed || self == KeyState::Pressed
    }

    /// Place in the order by which several triggers of one action are
    /// resolved: the held states stand above the released ones.
    pub open spec fn spec_rank(self) -> u8 {
        match self {
            KeyState::Released => 0,
            KeyState::JustReleased => 1,
            KeyState::JustPressed => 2,
            KeyState::Pressed => 3,
        }
    }

    /// The higher-ranked of two states.
    pub open spec fn spec_stronger(self, other: KeyState) -> KeyState {
        if other.spec_rank() > self.spec_rank() {
            other
        } else {
            self
        }
    }

    /// The state that follows `self` when the action is next reported as
    /// held (`pressed`) or not.
    pub open spec fn spec_transition(self, pressed: bool) -> KeyState {
        if self.spec_is_down() {
            if pressed {
                KeyState::Pressed
            } else {
                KeyState::JustReleased
            }
        } else {
            if pressed {
                KeyState::JustPressed
            } else {
                KeyState::Released
            }
        }
    }

    /// Whether the action counts as held.
    #[verifier::when_used_as_spec(spec_is_down)]
    pub fn is_down(self) -> (r: bool)
        ensures
            r == self.spec_is_down(),
    {
        match self {
            KeyState::JustPressed | KeyState::Pressed => true,
            KeyState::Released | KeyState::JustReleased => false,
        }
    }

    /// Place in the order by which several triggers are resolved, from 0
    /// for `Released` to 3 for `Pressed`.
    #[verifier::when_used_as_spec(spec_rank)]
    pub fn rank(self) -> (r: u8)
        ensures
            r == self.spec_rank(),
    {
        match self {
            KeyState::Released => 0,
            KeyState::JustReleased => 1,
            KeyState::JustPressed => 2,
            KeyState::Pressed => 3,
        }
    }

    /// The higher-ranked of two states.
    #[verifier::when_used_as_spec(spec_stronger)]
    pub fn stronger(self, other: KeyState) -> (r: KeyState)
        ensures
            r == self.spec_stronger(other),
    {
        if other.rank() > self.rank() {
            other
        } else {
            self
        }
    }

    /// The state that follows `self` under one transmitted bit.
    #[verifier::when_used_as_spec(spec_transition)]
    pub fn transition(self, pressed: bool) -> (r: KeyState)
        ensures
            r == self.spec_transition(pressed),
    {
        if self.is_down() {
            if pressed {
                KeyState::Pressed
            } else {
                KeyState::JustReleased
            }
        } else {
            if pressed {
                KeyState::JustPressed
            } else {
                KeyState::Released
            }
        }
    }
}

/// A raw trigger that can be bound to an action.
#[derive(Clone, Copy, Debug)]
pub enum InputAction {
    Key(KeyCode),
    Mouse(MouseButton),
}

impl InputAction {
    /// What the trigger reports this tick, if anything: the first of "just
    /// pressed", "pressed" and "just released" that the raw input confirms.
    pub open spec fn signal(self, keyboard: Input<KeyCode>, mouse: Input<MouseButton>) -> Option<
        KeyState,
    > {
        match self {
            InputAction::Key(key) => if keys_just_pressed(keyboard).contains(key) {
                Some(KeyState::JustPressed)
            } else if keys_pressed(keyboard).contains(key) {
                Some(KeyState::Pressed)
            } else if keys_just_released(keyboard).contains(key) {
                Some(KeyState::JustReleased)
            } else {
                None
            },
            InputAction::Mouse(button) => if buttons_just_pressed(mouse).contains(button) {
                Some(KeyState::JustPressed)
            } else if buttons_pressed(mouse).contains(button) {
                Some(KeyState::Pressed)
            } else if buttons_just_released(mouse).contains(button) {
                Some(KeyState::JustReleased)
            } else {
                None
            },
        }
    }

    /// Asks the raw input what this trigger reports.
    pub fn sample(&self, keyboard: &Input<KeyCode>, mouse: &Input<MouseButton>) -> (r: Option<
        KeyState,
    >)
        ensures
            r == self.signal(*keyboard, *mouse),
    {
        match self {
            InputAction::Key(key) => {
                if keyboard_just_pressed(keyboard, *key) {
                    Some(KeyState::JustPressed)
                } else if keyboard_pressed(keyboard, *key) {
                    Some(KeyState::Pressed)
                } else if keyboard_just_released(keyboard, *key) {
                    Some(KeyState::JustReleased)
                } else {
                    None
                }
            },
            InputAction::Mouse(button) => {
                if mouse_just_pressed(mouse, *button) {
                    Some(KeyState::JustPressed)
                } else if mouse_pressed(mouse, *button) {
                    Some(KeyState::Pressed)
                } else if mouse_just_released(mouse, *button) {
                    Some(KeyState::JustReleased)
                } else {
                    None
                }
            },
        }
    }

    /// Whether two triggers are the same key or the same button.
    pub fn same(&self, other: &InputAction) -> (r: bool)
        ensures
            r == (*self == *other),
    {
        match (self, other) {
            (InputAction::Key(a), InputAction::Key(b)) => same_key(*a, *b),
            (InputAction::Mouse(a), InputAction::Mouse(b)) => same_button(*a, *b),
            _ => false,
        }
    }
}

impl From<KeyCode> for InputAction {
    fn from(key_code: KeyCode) -> (r: Self) {
        InputAction::Key(key_code)
    }
}

impl vstd::std_specs::convert::FromSpecImpl<KeyCode> for InputAction {
    open spec fn obeys_from_spec() -> bool {
        true
    }

    open spec fn from_spec(key_code: KeyCode) -> Self {
        InputAction::Key(key_code)
    }
}

impl From<MouseButton> for InputAction {
    fn from(mouse_button: MouseButton) -> (r: Self) {
        InputAction::Mouse(mouse_button)
    }
}

impl vstd::std_specs::convert::FromSpecImpl<MouseButton> for InputAction {
    open spec fn obeys_from_spec() -> bool {
        true
    }

    open spec fn from_spec(mouse_button: MouseButton) -> Self {
        InputAction::Mouse(mouse_button)
    }
}

/// The state an action takes from its triggers: the highest-ranked signal
/// among them, and `Released` when none of them reports anything.
pub open spec fn sampled_state(
    triggers: Seq<InputAction>,
    keyboard: Input<KeyCode>,
    mouse: Input<MouseButton>,
) -> KeyState
    decreases triggers.len(),
{
    if triggers.len() == 0 {
        KeyState::Released
    } else {
        let rest = sampled_state(triggers.drop_last(), keyboard, mouse);
        match triggers.last().signal(keyboard, mouse) {
            Some(state) => rest.stronger(state),
            None => rest,
        }
    }
}

/// The states that one sampling gives to all bound actions.
pub open spec fn sampled_states(
    bindings: Map<u16, Seq<InputAction>>,
    keyboard: Input<KeyCode>,
    mouse: Input<MouseButton>,
) -> Map<u16, KeyState> {
    Map::new(
        |name: u16| bindings.contains_key(name),
        |name: u16| sampled_state(bindings[name], keyboard, mouse),
    )
}

/// The triggers of an action after one more is bound to it: nothing changes
/// when the trigger is already among them.
pub open spec fn with_trigger(triggers: Seq<InputAction>, action: InputAction) -> Seq<InputAction> {
    if triggers.contains(action) {
        triggers
    } else {
        triggers.push(action)
    }
}

/// Whether bit number `code` of `value` is set.
pub open spec fn bit_at(value: u16, code: u16) -> bool {
    (value >> code) & 1 == 1
}

/// Whether the action `code` has a state and that state is a held one.
pub open spec fn is_held(states: Map<u16, KeyState>, code: u16) -> bool {
    states.contains_key(code) && states[code].is_down()
}

/// The packed form of the codes below `n`: bit `code` is set exactly for
/// the held ones.
pub open spec fn pack_upto(states: Map<u16, KeyState>, n: u16) -> u16
    decreases n,
{
    if n == 0 {
        0
    } else {
        let code = (n - 1) as u16;
        let rest = pack_upto(states, code);
        if is_held(states, code) {
            rest | (1u16 << code)
        } else {
            rest
        }
    }
}

/// The sixteen-bit packed form of a set of states.
pub open spec fn pack(states: Map<u16, KeyState>) -> u16 {
    pack_upto(states, 16)
}

/// The state of `code` before unpacking: an action without a state counts
/// as released.
pub open spec fn prior_state(states: Map<u16, KeyState>, code: u16) -> KeyState {
    if states.contains_key(code) {
        states[code]
    } else {
        KeyState::Released
    }
}

/// The states after the codes below `n` that are bound have each taken one
/// step of the transition table with their bit of `value`.
pub open spec fn unpack_upto(states: Map<u16, KeyState>, bound: Set<u16>, value: u16, n: u16) -> Map<
    u16,
    KeyState,
> {
    Map::new(
        |code: u16| states.contains_key(code) || (code < n && bound.contains(code)),
        |code: u16|
            if code < n && bound.contains(code) {
                prior_state(states, code).transition(bit_at(value, code))
            } else {
                states[code]
            },
    )
}

/// The states after a packed value has been applied to the bound actions.
pub open spec fn unpack(states: Map<u16, KeyState>, bound: Set<u16>, value: u16) -> Map<
    u16,
    KeyState,
> {
    unpack_upto(states, bound, value, 16)
}

/// The triggers bound to each action and the state each action was last
/// given.
#[derive(Debug)]
pub struct GameControl {
    keys: HashMap<u16, Vec<InputAction>>,
    states: HashMap<u16, KeyState>,
}

impl GameControl {
    /// The triggers bound to each action, in the order they were bound.
    pub closed spec fn bindings(&self) -> Map<u16, Seq<InputAction>> {
        Map::new(|name: u16| self.keys@.contains_key(name), |name: u16| self.keys@[name]@)
    }

    /// The state of each action that has one.
    pub closed spec fn states(&self) -> Map<u16, KeyState> {
        self.states@
    }

    /// Only bound actions have a state.
    pub open spec fn wf(&self) -> bool {
        self.states().dom().subset_of(self.bindings().dom())
    }

    /// The triggers of `name`, none if it was never bound.
    pub open spec fn triggers_of(&self, name: u16) -> Seq<InputAction> {
        if self.bindings().contains_key(name) {
            self.bindings()[name]
        } else {
            Seq::empty()
        }
    }

    /// A tracker with no bindings and no states.
    pub fn new() -> (r: Self)
        ensures
            r.wf(),
            r.bindings() == Map::<u16, Seq<InputAction>>::empty(),
            r.states() == Map::<u16, KeyState>::empty(),
    {
        let r = Self { keys: HashMap::new(), states: HashMap::new() };
        assert(r.bindings() =~= Map::<u16, Seq<InputAction>>::empty());
        r
    }

    /// Makes `name` a bound action without giving it a trigger, so that a
    /// packed value received for it is applied. An action that is already
    /// bound keeps its triggers.
    pub fn declare_action(&mut self, name: u16)
        requires
            old(self).wf(),
        ensures
            final(self).wf(),
            final(self).states() == old(self).states(),
            final(self).bindings() == old(self).bindings().insert(name, old(self).triggers_of(name)),
    {
        broadcast use vstd::std_specs::hash::group_hash_axioms;

        let ghost before = self.bindings();
        if !self.keys.contains_key(&name) {
            self.keys.insert(name, Vec::new());
        }
        assert(self.bindings() =~= before.insert(name, old(self).triggers_of(name)));
    }

    /// Binds a keyboard key to the action `name`.
    pub fn add_key_action(&mut self, name: u16, key: KeyCode)
        requires
            old(self).wf(),
        ensures
            final(self).wf(),
            final(self).states() == old(self).states(),
            final(self).bindings() == old(self).bindings().insert(
                name,
                with_trigger(old(self).triggers_of(name), InputAction::Key(key)),
            ),
    {
        self.add_action(name, InputAction::from(key));
    }

    /// Binds a mouse button to the action `name`.
    pub fn add_mouse_action(&mut self, name: u16, button: MouseButton)
        requires
            old(self).wf(),
        ensures
            final(self).wf(),
            final(self).states() == old(self).states(),
            final(self).bindings() == old(self).bindings().insert(
                name,
                with_trigger(old(self).triggers_of(name), InputAction::Mouse(button)),
            ),
    {
        self.add_action(name, InputAction::from(button));
    }

    /// Binds one more trigger to the action `name`. Binding a trigger that
    /// the action already has changes nothing.
    pub fn add_action(&mut self, name: u16, action: InputAction)
        requires
            old(self).wf(),
        ensures
            final(self).wf(),
            final(self).states() == old(self).states(),
            final(self).bindings() == old(self).bindings().insert(
                name,
                with_trigger(old(self).triggers_of(name), action),
            ),
    {
        broadcast use vstd::std_specs::hash::group_hash_axioms;

        let ghost before = self.bindings();
        let mut actions: Vec<InputAction> = match self.keys.remove(&name) {
            Some(actions) => actions,
            None => Vec::new(),
        };
        assert(actions@ == old(self).triggers_of(name));
        if !contains_action(&actions, &action) {
            actions.push(action);
        }
        self.keys.insert(name, actions);
        assert(self.bindings() =~= before.insert(
            name,
            with_trigger(old(self).triggers_of(name), action),
        ));
    }

    /// The state of the action `name`, if it has one.
    pub fn get_key_state(&self, name: u16) -> (r: Option<&KeyState>)
        ensures
            match r {
                Some(state) => self.states().contains_key(name) && self.states()[name] == *state,
                None => !self.states().contains_key(name),
            },
    {
        broadcast use vstd::std_specs::hash::group_hash_axioms;

        self.states.get(&name)
    }

    /// The names of all bound actions, each once, in no particular order.
    fn bound_names(&self) -> (r: Vec<u16>)
        ensures
            r@.to_set() == self.bindings().dom(),
            r@.no_duplicates(),
    {
        broadcast use vstd::std_specs::hash::group_hash_axioms;

        let mut r: Vec<u16> = Vec::new();
        let it = self.keys.keys();
        let ghost all = it.remaining().unref();
        assert(all.to_set() == self.keys@.dom());
        assert(all.no_duplicates()) by {
            assert forall|i: int, j: int|
                0 <= i < all.len() && 0 <= j < all.len() && i != j implies all[i] != all[j] by {
                assert(it.remaining()[i] != it.remaining()[j]);
            }
        }
        for name in iter: it
            invariant
                iter.seq().unref() == all,
                r@ == all.take(iter.index() as int),
        {
            r.push(*name);
        }
        assert(r@ == all);
        assert(self.bindings().dom() =~= self.keys@.dom());
        r
    }

    /// How many triggers are bound to the action `name`.
    pub fn trigger_count(&self, name: u16) -> (r: usize)
        ensures
            r == self.triggers_of(name).len(),
    {
        broadcast use vstd::std_specs::hash::group_hash_axioms;

        match self.keys.get(&name) {
            Some(triggers) => triggers.len(),
            None => 0,
        }
    }

    /// How many actions have a state.
    pub fn state_count(&self) -> (r: usize)
        ensures
            r == self.states().len(),
    {
        broadcast use vstd::std_specs::hash::group_hash_axioms;

        self.states.len()
    }

    /// Packs the states into sixteen bits: bit `code` is set exactly when
    /// the action `code` is held.
    pub fn get_key_states(&self) -> (r: u16)
        requires
            self.states().len() < 16,
        ensures
            r == pack(self.states()),
            forall|code: u16| code < 16 ==> bit_at(r, code) == is_held(self.states(), code),
    {
        broadcast use vstd::std_specs::hash::group_hash_axioms;

        proof {
            assert forall|code: u16| code < 16 implies bit_at(pack(self.states()), code)
                == is_held(self.states(), code) by {
                crate::input_laws::lemma_pack_bits(self.states(), code);
            }
        }
        let mut res: u16 = 0;
        let mut code: u16 = 0;
        while code < 16
            invariant
                code <= 16,
                res == pack_upto(self.states@, code),
            decreases 16 - code,
        {
            let held = match self.states.get(&code) {
                Some(state) => state.is_down(),
                None => false,
            };
            if held {
                res = res | (1u16 << code);
            }
            code += 1;
        }
        res
    }

    /// Applies a packed value: every bound action below sixteen takes one
    /// step of the transition table with its bit, in code order. Actions
    /// that are not bound are passed over.
    pub fn set_key_states(&mut self, value: u16)
        requires
            old(self).wf(),
            old(self).states().len() < 16,
        ensures
            final(self).wf(),
            final(self).bindings() == old(self).bindings(),
            final(self).states() == unpack(old(self).states(), old(self).bindings().dom(), value),
    {
        broadcast use vstd::std_specs::hash::group_hash_axioms;

        let ghost before = self.states@;
        let ghost bound = self.bindings().dom();
        let ghost keys = self.keys;
        let mut code: u16 = 0;
        while code < 16
            invariant
                code <= 16,
                self.keys == keys,
                bound == self.bindings().dom(),
                self.states@ =~= unpack_upto(before, bound, value, code),
            decreases 16 - code,
        {
            if self.keys.contains_key(&code) {
                let pressed = (value >> code) & 1 == 1;
                let old_state = match self.states.get(&code) {
                    Some(state) => *state,
                    None => KeyState::Released,
                };
                self.states.insert(code, old_state.transition(pressed));
            }
            code += 1;
        }
    }

    /// Samples the raw input once: every bound action takes the strongest
    /// signal among its triggers, or `Released` when none reports anything.
    pub fn process_input(&mut self, keyboard: &Input<KeyCode>, mouse: &Input<MouseButton>)
        requires
            old(self).wf(),
        ensures
            final(self).wf(),
            final(self).bindings() == old(self).bindings(),
            final(self).states() == sampled_states(old(self).bindings(), *keyboard, *mouse),
    {
        broadcast use vstd::std_specs::hash::group_hash_axioms;

        let names = self.bound_names();
        let ghost before = self.states@;
        let ghost keys = self.keys;
        let ghost bindings = self.bindings();
        let mut i: usize = 0;
        while i < names.len()
            invariant
                i <= names.len(),
                self.keys == keys,
                bindings == self.bindings(),
                names@.to_set() == bindings.dom(),
                self.states@ =~= Map::new(
                    |name: u16| before.contains_key(name) || names@.take(i as int).contains(name),
                    |name: u16|
                        if names@.take(i as int).contains(name) {
                            sampled_state(bindings[name], *keyboard, *mouse)
                        } else {
                            before[name]
                        },
                ),
            decreases names.len() - i,
        {
            let name = names[i];
            assert(names@.to_set().contains(name));
            let state = match self.keys.get(&name) {
                Some(triggers) => sample_all(triggers, keyboard, mouse),
                None => KeyState::Released,
            };
            self.states.insert(name, state);
            proof {
                let done = names@.take(i as int);
                let next = names@.take(i + 1);
                assert(next == done.push(name));
                assert forall|other: u16| next.contains(other) <==> (done.contains(other) || other
                    == name) by {
                    if done.contains(other) {
                        let k = choose|k: int| 0 <= k < done.len() && done[k] == other;
                        assert(next[k] == other);
                    }
                    if other == name {
                        assert(next[i as int] == other);
                    }
                }
            }
            i += 1;
        }
        assert(names@.take(i as int) == names@);
        assert(self.states@ =~= sampled_states(bindings, *keyboard, *mouse));
    }
}

impl Default for GameControl {
    fn default() -> (r: Self)
        ensures
            r.wf(),
            r.bindings() == Map::<u16, Seq<InputAction>>::empty(),
            r.states() == Map::<u16, KeyState>::empty(),
    {
        GameControl::new()
    }
}

/// The strongest signal among `triggers`.
fn sample_all(triggers: &Vec<InputAction>, keyboard: &Input<KeyCode>, mouse: &Input<MouseButton>) -> (r:
    KeyState)
    ensures
        r == sampled_state(triggers@, *keyboard, *mouse),
{
    let mut best = KeyState::Released;
    let mut i: usize = 0;
    while i < triggers.len()
        invariant
            i <= triggers.len(),
            best == sampled_state(triggers@.take(i as int), *keyboard, *mouse),
        decreases triggers.len() - i,
    {
        assert(triggers@.take(i + 1).drop_last() == triggers@.take(i as int));
        match triggers[i].sample(keyboard, mouse) {
            Some(state) => {
                best = best.stronger(state);
            },
            None => {},
        }
        i += 1;
    }
    assert(triggers@.take(i as int) == triggers@);
    best
}

/// Whether `action` is among `actions`.
fn contains_action(actions: &Vec<InputAction>, action: &InputAction) -> (r: bool)
    ensures
        r == actions@.contains(*action),
{
    let mut i: usize = 0;
    while i < actions.len()
        invariant
            i <= actions.len(),
            forall|j: int| 0 <= j < i ==> actions@[j] != *action,
        decreases actions.len() - i,
    {
        if actions[i].same(action) {
            return true;
        }
        i += 1;
    }
    false
}

} // verus!
