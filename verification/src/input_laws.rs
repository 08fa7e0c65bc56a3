//! Laws of sampling, packing and unpacking action states.

use crate::input::{
    bit_at, is_held, pack, pack_upto, prior_state, sampled_state, unpack, InputAction, KeyState,
};
use bevy::input::keyboard::KeyCode;
use bevy::input::mouse::MouseButton;
use bevy::input::Input;
use vstd::prelude::*;

verus! {

proof fn lemma_bit_of_or(x: u16, k: u16, c: u16)
    by (bit_vector)
    requires
        k < 16,
        c < 16,
    ensures
        ((x | (1u16 << k)) >> c) & 1 == (if c == k {
            1u16
        } else {
            (x >> c) & 1
        }),
{
}

proof fn lemma_bit_of_zero(c: u16)
    by (bit_vector)
    requires
        c < 16,
    ensures
        (0u16 >> c) & 1 == 0,
{
}

/// Bit `code` of the packed form of the codes below `n` is set exactly when
/// `code` is below `n` and held.
pub proof fn lemma_pack_upto_bits(states: Map<u16, KeyState>, n: u16, code: u16)
    requires
        n <= 16,
        code < 16,
    ensures
        bit_at(pack_upto(states, n), code) == (code < n && is_held(states, code)),
    decreases n,
{
    if n == 0 {
        lemma_bit_of_zero(code);
    } else {
        let last = (n - 1) as u16;
        lemma_pack_upto_bits(states, last, code);
        if is_held(states, last) {
            lemma_bit_of_or(pack_upto(states, last), last, code);
        }
    }
}

/// Bit `code` of the packed form is set exactly when the action `code` is
/// held; an action without a state leaves its bit clear.
pub proof fn lemma_pack_bits(states: Map<u16, KeyState>, code: u16)
    requires
        code < 16,
    ensures
        bit_at(pack(states), code) == is_held(states, code),
{
    lemma_pack_upto_bits(states, 16, code);
}

/// After a packed value is applied, every bound action below sixteen is
/// held exactly when its bit was set.
pub proof fn lemma_unpack_follows_bits(
    states: Map<u16, KeyState>,
    bound: Set<u16>,
    value: u16,
    code: u16,
)
    requires
        code < 16,
        bound.contains(code),
    ensures
        unpack(states, bound, value).contains_key(code),
        unpack(states, bound, value)[code] == prior_state(states, code).transition(
            bit_at(value, code),
        ),
        unpack(states, bound, value)[code].is_down() == bit_at(value, code),
{
}

/// Packing what was just unpacked gives back the received bit of every
/// bound action, and a clear bit for every other code, provided only bound
/// actions had a state.
pub proof fn lemma_pack_after_unpack(
    states: Map<u16, KeyState>,
    bound: Set<u16>,
    value: u16,
    code: u16,
)
    requires
        states.dom().subset_of(bound),
        code < 16,
    ensures
        bit_at(pack(unpack(states, bound, value)), code) == (bound.contains(code) && bit_at(
            value,
            code,
        )),
{
    lemma_pack_bits(unpack(states, bound, value), code);
    if !bound.contains(code) {
        assert(!states.dom().contains(code));
    }
}

/// Unpacking inverts packing: when every state is `Pressed` or `Released`,
/// applying the packed form of the states to those same states leaves each
/// of them as it was, gives `Released` to the bound actions below sixteen
/// that had no state, and agrees with the transition table on every bit.
pub proof fn lemma_unpack_inverts_pack(states: Map<u16, KeyState>, bound: Set<u16>)
    requires
        states.dom().subset_of(bound),
        forall|code: u16| #[trigger]
            states.contains_key(code) ==> states[code] == KeyState::Pressed || states[code]
                == KeyState::Released,
    ensures
        forall|code: u16| #[trigger]
            states.contains_key(code) ==> unpack(states, bound, pack(states)).contains_key(code)
                && unpack(states, bound, pack(states))[code] == states[code],
        forall|code: u16|
            code < 16 && bound.contains(code) ==> #[trigger] unpack(states, bound, pack(states))[code]
                == prior_state(states, code).transition(bit_at(pack(states), code)),
        forall|code: u16|
            code < 16 && bound.contains(code) && !states.contains_key(code) ==> #[trigger] unpack(
                states,
                bound,
                pack(states),
            )[code] == KeyState::Released,
{
    let after = unpack(states, bound, pack(states));
    assert forall|code: u16| #[trigger] states.contains_key(code) implies after.contains_key(code)
        && after[code] == states[code] by {
        assert(states.dom().contains(code));
        if code < 16 {
            lemma_pack_bits(states, code);
        }
    }
    assert forall|code: u16|
        code < 16 && bound.contains(code) && !states.contains_key(code) implies #[trigger] after[code]
        == KeyState::Released by {
        lemma_pack_bits(states, code);
    }
}

/// Under a constant bit a state settles after two steps: the third step
/// changes nothing. `Released` under a clear bit stays `Released`, and
/// `Pressed` under a set bit stays `Pressed`.
pub proof fn lemma_transition_settles(state: KeyState, pressed: bool)
    ensures
        state.transition(pressed).transition(pressed).transition(pressed) == state.transition(
            pressed,
        ).transition(pressed),
        state.transition(pressed).transition(pressed) == (if pressed {
            KeyState::Pressed
        } else {
            KeyState::Released
        }),
        KeyState::Released.transition(false) == KeyState::Released,
        KeyState::Pressed.transition(true) == KeyState::Pressed,
{
}

/// Applying the same packed value a third time changes nothing.
pub proof fn lemma_unpack_settles(states: Map<u16, KeyState>, bound: Set<u16>, value: u16)
    ensures
        unpack(unpack(unpack(states, bound, value), bound, value), bound, value) == unpack(
            unpack(states, bound, value),
            bound,
            value,
        ),
{
    let once = unpack(states, bound, value);
    let twice = unpack(once, bound, value);
    let thrice = unpack(twice, bound, value);
    assert forall|code: u16| twice.contains_key(code) implies #[trigger] thrice[code]
        == twice[code] by {
        if code < 16 && bound.contains(code) {
            lemma_transition_settles(prior_state(states, code), bit_at(value, code));
        }
    }
    assert(thrice =~= twice);
}

/// The sampled state of an action is the maximum of what its triggers
/// report: no trigger reports a higher-ranked state, and the state is
/// either reported by one of the triggers or `Released`.
pub proof fn lemma_sampled_state_is_maximum(
    triggers: Seq<InputAction>,
    keyboard: Input<KeyCode>,
    mouse: Input<MouseButton>,
)
    ensures
        forall|i: int|
            0 <= i < triggers.len() ==> (#[trigger] triggers[i].signal(keyboard, mouse) matches Some(
                state,
            ) ==> state.rank() <= sampled_state(triggers, keyboard, mouse).rank()),
        sampled_state(triggers, keyboard, mouse) == KeyState::Released || exists|i: int|
            0 <= i < triggers.len() && #[trigger] triggers[i].signal(keyboard, mouse) == Some(
                sampled_state(triggers, keyboard, mouse),
            ),
    decreases triggers.len(),
{
    if triggers.len() > 0 {
        let front = triggers.drop_last();
        lemma_sampled_state_is_maximum(front, keyboard, mouse);
        let rest = sampled_state(front, keyboard, mouse);
        let all = sampled_state(triggers, keyboard, mouse);
        assert forall|i: int| 0 <= i < triggers.len() implies (#[trigger] triggers[i].signal(
            keyboard,
            mouse,
        ) matches Some(state) ==> state.rank() <= all.rank()) by {
            if i < front.len() {
                assert(front[i] == triggers[i]);
            }
        }
        if all != KeyState::Released {
            if all == rest {
                let i = choose|i: int|
                    0 <= i < front.len() && #[trigger] front[i].signal(keyboard, mouse) == Some(
                        rest,
                    );
                assert(triggers[i] == front[i]);
            } else {
                assert(triggers[triggers.len() - 1].signal(keyboard, mouse) == Some(all));
            }
        }
    }
}

/// The ranks order the four states totally: two states of one rank are the
/// same state, the held states stand above the others, and taking the
/// stronger of two states does not depend on their order or grouping.
pub proof fn lemma_rank_is_total(a: KeyState, b: KeyState, c: KeyState)
    ensures
        a.rank() == b.rank() ==> a == b,
        a.is_down() && !b.is_down() ==> a.rank() > b.rank(),
        a.stronger(b) == b.stronger(a),
        a.stronger(b).stronger(c) == a.stronger(b.stronger(c)),
        a.stronger(a) == a,
        KeyState::Released.stronger(a) == a,
{
}

/// A sampled action is held exactly when one of its triggers reports a
/// held state: a trigger that was let go never hides one that is down.
pub proof fn lemma_sampled_state_is_held(
    triggers: Seq<InputAction>,
    keyboard: Input<KeyCode>,
    mouse: Input<MouseButton>,
)
    ensures
        sampled_state(triggers, keyboard, mouse).is_down() <==> exists|i: int|
            0 <= i < triggers.len() && (#[trigger] triggers[i].signal(keyboard, mouse) matches Some(
                state,
            ) && state.is_down()),
{
    lemma_sampled_state_is_maximum(triggers, keyboard, mouse);
    let all = sampled_state(triggers, keyboard, mouse);
    if all.is_down() {
        let i = choose|i: int|
            0 <= i < triggers.len() && #[trigger] triggers[i].signal(keyboard, mouse) == Some(all);
        assert(triggers[i].signal(keyboard, mouse) matches Some(state) && state.is_down());
    }
}

} // verus!
