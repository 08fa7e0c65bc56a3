use bevy::input::keyboard::KeyCode;
use bevy::input::mouse::MouseButton;
use bevy::input::Input;
use bevy_game::input::{GameControl, InputAction, KeyState};

const FIRE: u16 = 0;
const JUMP: u16 = 1;
const HORN: u16 = 5;
const FAR: u16 = 40;

fn idle() -> (Input<KeyCode>, Input<MouseButton>) {
    (Input::default(), Input::default())
}

#[test]
fn new_control_has_no_state() {
    let control = GameControl::new();
    assert_eq!(control.get_key_state(FIRE), None);
    assert_eq!(control.state_count(), 0);
    assert_eq!(control.trigger_count(FIRE), 0);
    assert_eq!(control.get_key_states(), 0);
    let other = GameControl::default();
    assert_eq!(other.state_count(), 0);
}

#[test]
fn unbound_action_is_never_sampled() {
    let mut control = GameControl::new();
    control.add_key_action(FIRE, KeyCode::Space);
    let (mut keyboard, mouse) = idle();
    keyboard.press(KeyCode::A);
    control.process_input(&keyboard, &mouse);
    assert_eq!(control.get_key_state(JUMP), None);
    assert_eq!(control.get_key_state(FIRE), Some(&KeyState::Released));
    assert_eq!(control.state_count(), 1);
}

#[test]
fn key_goes_through_all_four_states() {
    let mut control = GameControl::new();
    control.add_key_action(FIRE, KeyCode::Space);
    let (mut keyboard, mouse) = idle();

    keyboard.press(KeyCode::Space);
    control.process_input(&keyboard, &mouse);
    assert_eq!(control.get_key_state(FIRE), Some(&KeyState::JustPressed));

    keyboard.clear();
    control.process_input(&keyboard, &mouse);
    assert_eq!(control.get_key_state(FIRE), Some(&KeyState::Pressed));

    keyboard.release(KeyCode::Space);
    control.process_input(&keyboard, &mouse);
    assert_eq!(control.get_key_state(FIRE), Some(&KeyState::JustReleased));

    keyboard.clear();
    control.process_input(&keyboard, &mouse);
    assert_eq!(control.get_key_state(FIRE), Some(&KeyState::Released));
}

#[test]
fn mouse_button_goes_through_all_four_states() {
    let mut control = GameControl::new();
    control.add_mouse_action(FIRE, MouseButton::Left);
    let (keyboard, mut mouse) = idle();

    mouse.press(MouseButton::Left);
    control.process_input(&keyboard, &mouse);
    assert_eq!(control.get_key_state(FIRE), Some(&KeyState::JustPressed));

    mouse.clear();
    control.process_input(&keyboard, &mouse);
    assert_eq!(control.get_key_state(FIRE), Some(&KeyState::Pressed));

    mouse.release(MouseButton::Left);
    control.process_input(&keyboard, &mouse);
    assert_eq!(control.get_key_state(FIRE), Some(&KeyState::JustReleased));

    mouse.clear();
    control.process_input(&keyboard, &mouse);
    assert_eq!(control.get_key_state(FIRE), Some(&KeyState::Released));
}

#[test]
fn other_keys_and_buttons_do_not_trigger() {
    let mut control = GameControl::new();
    control.add_key_action(FIRE, KeyCode::Space);
    control.add_mouse_action(JUMP, MouseButton::Right);
    let (mut keyboard, mut mouse) = idle();
    keyboard.press(KeyCode::Return);
    mouse.press(MouseButton::Left);
    mouse.press(MouseButton::Other(7));
    control.process_input(&keyboard, &mouse);
    assert_eq!(control.get_key_state(FIRE), Some(&KeyState::Released));
    assert_eq!(control.get_key_state(JUMP), Some(&KeyState::Released));
}

#[test]
fn held_trigger_outranks_released_trigger() {
    let mut control = GameControl::new();
    control.add_key_action(FIRE, KeyCode::Space);
    control.add_mouse_action(FIRE, MouseButton::Left);
    let (mut keyboard, mut mouse) = idle();

    // The key is held from an earlier tick, the button was let go this tick.
    keyboard.press(KeyCode::Space);
    keyboard.clear();
    mouse.press(MouseButton::Left);
    mouse.clear();
    mouse.release(MouseButton::Left);
    control.process_input(&keyboard, &mouse);
    assert_eq!(control.get_key_state(FIRE), Some(&KeyState::Pressed));

    // The same with the order of binding reversed.
    let mut reversed = GameControl::new();
    reversed.add_mouse_action(FIRE, MouseButton::Left);
    reversed.add_key_action(FIRE, KeyCode::Space);
    reversed.process_input(&keyboard, &mouse);
    assert_eq!(reversed.get_key_state(FIRE), Some(&KeyState::Pressed));
}

#[test]
fn just_pressed_outranks_just_released() {
    let mut control = GameControl::new();
    control.add_key_action(FIRE, KeyCode::Space);
    control.add_key_action(FIRE, KeyCode::Return);
    let (mut keyboard, mouse) = idle();
    keyboard.press(KeyCode::Return);
    keyboard.clear();
    keyboard.release(KeyCode::Return);
    keyboard.press(KeyCode::Space);
    control.process_input(&keyboard, &mouse);
    assert_eq!(control.get_key_state(FIRE), Some(&KeyState::JustPressed));
}

#[test]
fn pressed_outranks_just_pressed() {
    let mut control = GameControl::new();
    control.add_key_action(FIRE, KeyCode::Space);
    control.add_key_action(FIRE, KeyCode::Return);
    let (mut keyboard, mouse) = idle();
    keyboard.press(KeyCode::Return);
    keyboard.clear();
    keyboard.press(KeyCode::Space);
    control.process_input(&keyboard, &mouse);
    assert_eq!(control.get_key_state(FIRE), Some(&KeyState::Pressed));
}

#[test]
fn just_released_outranks_silence() {
    let mut control = GameControl::new();
    control.add_key_action(FIRE, KeyCode::Space);
    control.add_key_action(FIRE, KeyCode::Return);
    let (mut keyboard, mouse) = idle();
    keyboard.press(KeyCode::Return);
    keyboard.clear();
    keyboard.release(KeyCode::Return);
    control.process_input(&keyboard, &mouse);
    assert_eq!(control.get_key_state(FIRE), Some(&KeyState::JustReleased));
}

#[test]
fn rank_orders_held_above_released() {
    assert_eq!(KeyState::Released.rank(), 0);
    assert_eq!(KeyState::JustReleased.rank(), 1);
    assert_eq!(KeyState::JustPressed.rank(), 2);
    assert_eq!(KeyState::Pressed.rank(), 3);
    assert_eq!(KeyState::Released.stronger(KeyState::JustReleased), KeyState::JustReleased);
    assert_eq!(KeyState::Pressed.stronger(KeyState::JustReleased), KeyState::Pressed);
    assert_eq!(KeyState::JustPressed.stronger(KeyState::Pressed), KeyState::Pressed);
    assert_eq!(KeyState::JustPressed.stronger(KeyState::JustPressed), KeyState::JustPressed);
    let by_rank = [
        KeyState::Released,
        KeyState::JustReleased,
        KeyState::JustPressed,
        KeyState::Pressed,
    ];
    for a in by_rank {
        for b in by_rank {
            assert_eq!(a < b, a.rank() < b.rank());
            assert_eq!(a.cmp(&b), a.rank().cmp(&b.rank()));
            assert_eq!(a.stronger(b), a.max(b));
        }
    }
    assert!(KeyState::JustPressed.is_down());
    assert!(KeyState::Pressed.is_down());
    assert!(!KeyState::Released.is_down());
    assert!(!KeyState::JustReleased.is_down());
}

#[test]
fn binding_the_same_trigger_twice_changes_nothing() {
    let mut control = GameControl::new();
    control.add_key_action(FIRE, KeyCode::Space);
    control.add_key_action(FIRE, KeyCode::Space);
    assert_eq!(control.trigger_count(FIRE), 1);
    control.add_key_action(FIRE, KeyCode::Return);
    assert_eq!(control.trigger_count(FIRE), 2);
    control.add_mouse_action(FIRE, MouseButton::Left);
    control.add_mouse_action(FIRE, MouseButton::Left);
    assert_eq!(control.trigger_count(FIRE), 3);
    control.add_mouse_action(FIRE, MouseButton::Other(3));
    control.add_mouse_action(FIRE, MouseButton::Other(4));
    control.add_mouse_action(FIRE, MouseButton::Other(3));
    assert_eq!(control.trigger_count(FIRE), 5);
    control.add_action(FIRE, InputAction::from(KeyCode::Return));
    control.add_action(FIRE, InputAction::from(MouseButton::Left));
    assert_eq!(control.trigger_count(FIRE), 5);
    assert_eq!(control.trigger_count(JUMP), 0);
}

#[test]
fn same_tells_triggers_apart() {
    let space = InputAction::Key(KeyCode::Space);
    assert!(space.same(&InputAction::from(KeyCode::Space)));
    assert!(!space.same(&InputAction::Key(KeyCode::A)));
    assert!(!space.same(&InputAction::Mouse(MouseButton::Left)));
    let left = InputAction::Mouse(MouseButton::Left);
    assert!(left.same(&InputAction::from(MouseButton::Left)));
    assert!(!left.same(&InputAction::Mouse(MouseButton::Right)));
}

#[test]
fn trigger_sample_reports_first_matching_edge() {
    let (mut keyboard, mut mouse) = idle();
    let space = InputAction::Key(KeyCode::Space);
    let left = InputAction::Mouse(MouseButton::Left);
    assert_eq!(space.sample(&keyboard, &mouse), None);
    assert_eq!(left.sample(&keyboard, &mouse), None);
    keyboard.press(KeyCode::Space);
    mouse.press(MouseButton::Left);
    assert_eq!(space.sample(&keyboard, &mouse), Some(KeyState::JustPressed));
    assert_eq!(left.sample(&keyboard, &mouse), Some(KeyState::JustPressed));
    keyboard.clear();
    mouse.clear();
    assert_eq!(space.sample(&keyboard, &mouse), Some(KeyState::Pressed));
    assert_eq!(left.sample(&keyboard, &mouse), Some(KeyState::Pressed));
    keyboard.release(KeyCode::Space);
    mouse.release(MouseButton::Left);
    assert_eq!(space.sample(&keyboard, &mouse), Some(KeyState::JustReleased));
    assert_eq!(left.sample(&keyboard, &mouse), Some(KeyState::JustReleased));
}

#[test]
fn packing_sets_the_bit_of_each_held_code() {
    let mut control = GameControl::new();
    control.add_key_action(FIRE, KeyCode::Space);
    control.add_key_action(JUMP, KeyCode::Up);
    control.add_key_action(HORN, KeyCode::H);
    control.add_key_action(FAR, KeyCode::F);
    let (mut keyboard, mouse) = idle();
    keyboard.press(KeyCode::Space);
    keyboard.press(KeyCode::H);
    keyboard.press(KeyCode::F);
    control.process_input(&keyboard, &mouse);
    // Just pressed counts as held; a code of sixteen or more has no bit.
    assert_eq!(control.get_key_states(), 0b10_0001);
    keyboard.clear();
    keyboard.release(KeyCode::Space);
    keyboard.press(KeyCode::Up);
    control.process_input(&keyboard, &mouse);
    // Just released counts as not held.
    assert_eq!(control.get_key_states(), 0b10_0010);
}

#[test]
fn packing_reaches_the_highest_bit() {
    let mut control = GameControl::new();
    control.add_key_action(15, KeyCode::Z);
    let (mut keyboard, mouse) = idle();
    keyboard.press(KeyCode::Z);
    control.process_input(&keyboard, &mouse);
    assert_eq!(control.get_key_states(), 0x8000);
}

#[test]
fn unpacking_follows_the_transition_table() {
    let mut control = GameControl::new();
    control.add_key_action(FIRE, KeyCode::Space);
    control.add_key_action(JUMP, KeyCode::Up);

    control.set_key_states(0b01);
    assert_eq!(control.get_key_state(FIRE), Some(&KeyState::JustPressed));
    assert_eq!(control.get_key_state(JUMP), Some(&KeyState::Released));

    control.set_key_states(0b11);
    assert_eq!(control.get_key_state(FIRE), Some(&KeyState::Pressed));
    assert_eq!(control.get_key_state(JUMP), Some(&KeyState::JustPressed));

    control.set_key_states(0b10);
    assert_eq!(control.get_key_state(FIRE), Some(&KeyState::JustReleased));
    assert_eq!(control.get_key_state(JUMP), Some(&KeyState::Pressed));

    control.set_key_states(0b01);
    assert_eq!(control.get_key_state(FIRE), Some(&KeyState::JustPressed));
    assert_eq!(control.get_key_state(JUMP), Some(&KeyState::JustReleased));

    control.set_key_states(0b00);
    assert_eq!(control.get_key_state(FIRE), Some(&KeyState::JustReleased));
    assert_eq!(control.get_key_state(JUMP), Some(&KeyState::Released));
}

#[test]
fn transition_table_entries() {
    assert_eq!(KeyState::Released.transition(true), KeyState::JustPressed);
    assert_eq!(KeyState::Released.transition(false), KeyState::Released);
    assert_eq!(KeyState::JustReleased.transition(true), KeyState::JustPressed);
    assert_eq!(KeyState::JustReleased.transition(false), KeyState::Released);
    assert_eq!(KeyState::JustPressed.transition(true), KeyState::Pressed);
    assert_eq!(KeyState::JustPressed.transition(false), KeyState::JustReleased);
    assert_eq!(KeyState::Pressed.transition(true), KeyState::Pressed);
    assert_eq!(KeyState::Pressed.transition(false), KeyState::JustReleased);
}

#[test]
fn unpacking_passes_over_unbound_and_high_codes() {
    let mut control = GameControl::new();
    control.add_key_action(JUMP, KeyCode::Up);
    control.add_key_action(FAR, KeyCode::F);
    control.set_key_states(0xffff);
    assert_eq!(control.get_key_state(FIRE), None);
    assert_eq!(control.get_key_state(JUMP), Some(&KeyState::JustPressed));
    assert_eq!(control.get_key_state(HORN), None);
    assert_eq!(control.get_key_state(FAR), None);
    assert_eq!(control.state_count(), 1);
    assert_eq!(control.get_key_states(), 0b10);
}

#[test]
fn declared_action_takes_received_bits() {
    let mut receiver = GameControl::new();
    receiver.declare_action(HORN);
    assert_eq!(receiver.trigger_count(HORN), 0);
    assert_eq!(receiver.get_key_state(HORN), None);
    receiver.set_key_states(1 << HORN);
    assert_eq!(receiver.get_key_state(HORN), Some(&KeyState::JustPressed));
    assert_eq!(receiver.get_key_state(FIRE), None);
    // Without a trigger the action is sampled as released.
    let (mut keyboard, mouse) = idle();
    keyboard.press(KeyCode::H);
    receiver.process_input(&keyboard, &mouse);
    assert_eq!(receiver.get_key_state(HORN), Some(&KeyState::Released));
    // Declaring an action again keeps what is bound to it.
    receiver.add_key_action(HORN, KeyCode::H);
    receiver.declare_action(HORN);
    assert_eq!(receiver.trigger_count(HORN), 1);
    receiver.process_input(&keyboard, &mouse);
    assert_eq!(receiver.get_key_state(HORN), Some(&KeyState::JustPressed));
}

#[test]
fn unpacking_reads_the_highest_bit() {
    let mut control = GameControl::new();
    control.add_key_action(15, KeyCode::Z);
    control.add_key_action(14, KeyCode::Y);
    control.set_key_states(0x8000);
    assert_eq!(control.get_key_state(15), Some(&KeyState::JustPressed));
    assert_eq!(control.get_key_state(14), Some(&KeyState::Released));
}

#[test]
fn unpacking_what_was_packed_keeps_settled_states() {
    let mut sender = GameControl::new();
    sender.add_key_action(FIRE, KeyCode::Space);
    sender.add_key_action(JUMP, KeyCode::Up);
    sender.add_key_action(HORN, KeyCode::H);
    let (mut keyboard, mouse) = idle();
    keyboard.press(KeyCode::Space);
    keyboard.press(KeyCode::H);
    keyboard.clear();
    sender.process_input(&keyboard, &mouse);
    assert_eq!(sender.get_key_state(FIRE), Some(&KeyState::Pressed));
    assert_eq!(sender.get_key_state(JUMP), Some(&KeyState::Released));
    assert_eq!(sender.get_key_state(HORN), Some(&KeyState::Pressed));

    let bits = sender.get_key_states();
    assert_eq!(bits, 0b10_0001);
    sender.set_key_states(bits);
    assert_eq!(sender.get_key_state(FIRE), Some(&KeyState::Pressed));
    assert_eq!(sender.get_key_state(JUMP), Some(&KeyState::Released));
    assert_eq!(sender.get_key_state(HORN), Some(&KeyState::Pressed));
    assert_eq!(sender.get_key_states(), bits);
}

#[test]
fn receiver_rebuilds_the_edges_of_the_sender() {
    let mut sender = GameControl::new();
    let mut receiver = GameControl::new();
    for control in [&mut sender, &mut receiver] {
        control.add_key_action(FIRE, KeyCode::Space);
        control.add_key_action(JUMP, KeyCode::Up);
    }
    let (mut keyboard, mouse) = idle();

    keyboard.press(KeyCode::Space);
    sender.process_input(&keyboard, &mouse);
    receiver.set_key_states(sender.get_key_states());
    assert_eq!(receiver.get_key_state(FIRE), Some(&KeyState::JustPressed));

    keyboard.clear();
    sender.process_input(&keyboard, &mouse);
    receiver.set_key_states(sender.get_key_states());
    assert_eq!(receiver.get_key_state(FIRE), Some(&KeyState::Pressed));

    keyboard.release(KeyCode::Space);
    sender.process_input(&keyboard, &mouse);
    receiver.set_key_states(sender.get_key_states());
    assert_eq!(receiver.get_key_state(FIRE), Some(&KeyState::JustReleased));

    keyboard.clear();
    sender.process_input(&keyboard, &mouse);
    receiver.set_key_states(sender.get_key_states());
    assert_eq!(receiver.get_key_state(FIRE), Some(&KeyState::Released));
    assert_eq!(receiver.get_key_state(JUMP), Some(&KeyState::Released));
}

#[test]
fn constant_bit_settles_after_two_steps() {
    let mut control = GameControl::new();
    control.add_key_action(FIRE, KeyCode::Space);
    control.add_key_action(JUMP, KeyCode::Up);
    control.set_key_states(0b01);
    control.set_key_states(0b10);
    // FIRE is JustReleased and JUMP is JustPressed; hold the bits from here.
    control.set_key_states(0b10);
    assert_eq!(control.get_key_state(FIRE), Some(&KeyState::Released));
    assert_eq!(control.get_key_state(JUMP), Some(&KeyState::Pressed));
    control.set_key_states(0b10);
    assert_eq!(control.get_key_state(FIRE), Some(&KeyState::Released));
    assert_eq!(control.get_key_state(JUMP), Some(&KeyState::Pressed));
    for state in [
        KeyState::Released,
        KeyState::JustPressed,
        KeyState::Pressed,
        KeyState::JustReleased,
    ] {
        for bit in [false, true] {
            let twice = state.transition(bit).transition(bit);
            assert_eq!(twice.transition(bit), twice);
        }
    }
}

#[test]
fn fifteen_actions_can_be_packed() {
    let mut control = GameControl::new();
    for code in 0..15u16 {
        control.add_key_action(code, KeyCode::Space);
    }
    let (mut keyboard, mouse) = idle();
    keyboard.press(KeyCode::Space);
    control.process_input(&keyboard, &mouse);
    assert_eq!(control.state_count(), 15);
    assert_eq!(control.get_key_states(), 0x7fff);
    control.set_key_states(0);
    assert_eq!(control.get_key_states(), 0);
    assert_eq!(control.get_key_state(14), Some(&KeyState::JustReleased));
}
