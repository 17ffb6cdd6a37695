//! Pressed/released state of the keys, one bit per key.

use vstd::prelude::*;

verus! {

/// Number of keys the bitmask can track.
pub const KEY_CODE_COUNT: usize = 128;

/// Pressed state of up to [`KEY_CODE_COUNT`] keys. A key is identified by
/// its number.
pub struct InputState {
    pub keys_pressed_bitmask: u128,
}

/// Whether bit `key` of `mask` is set.
pub open spec fn bit_is_set(mask: u128, key: nat) -> bool {
    mask & (1u128 << (key as u128)) != 0
}

impl InputState {
    /// The set of keys that are pressed.
    pub open spec fn pressed(&self) -> Set<nat> {
        Set::new(|key: nat| key < KEY_CODE_COUNT && bit_is_set(self.keys_pressed_bitmask, key))
    }

    /// A state in which no key is pressed.
    pub fn new() -> (state: Self)
        ensures
            state.keys_pressed_bitmask == 0,
            state.pressed() == Set::<nat>::empty(),
    {
        let state = Self { keys_pressed_bitmask: 0 };
        proof {
            assert forall|key: nat| key < KEY_CODE_COUNT implies !bit_is_set(0u128, key) by {
                let k: u128 = key as u128;
                assert(0u128 & (1u128 << k) == 0) by (bit_vector);
            }
            assert(state.pressed() =~= Set::<nat>::empty());
        }
        state
    }

    /// Whether key `key_code` is pressed. The state stays as it is.
    pub fn is_key_pressed(&mut self, key_code: usize) -> (is_pressed: bool)
        requires
            key_code < KEY_CODE_COUNT,
        ensures
            is_pressed == old(self).pressed().contains(key_code as nat),
            *final(self) == *old(self),
    {
        self.keys_pressed_bitmask & (1u128 << (key_code as u128)) != 0
    }

    /// Marks key `key_code` as pressed or released. No other key changes.
    pub fn set_key_pressed(&mut self, key_code: usize, pressed: bool)
        requires
            key_code < KEY_CODE_COUNT,
        ensures
            final(self).pressed() == if pressed {
                old(self).pressed().insert(key_code as nat)
            } else {
                old(self).pressed().remove(key_code as nat)
            },
    {
        let bit: u128 = 1u128 << (key_code as u128);
        let value: u128 = if pressed {
            bit
        } else {
            0
        };
        let before: u128 = self.keys_pressed_bitmask;
        let after: u128 = (before & !bit) | value;
        self.keys_pressed_bitmask = after;
        proof {
            let k: u128 = key_code as u128;
            assert forall|key: nat| key < KEY_CODE_COUNT implies (bit_is_set(after, key) == (if key
                == key_code {
                pressed
            } else {
                bit_is_set(before, key)
            })) by {
                let j: u128 = key as u128;
                if pressed {
                    assert(((before & !(1u128 << k)) | (1u128 << k)) & (1u128 << j) != 0 <==> (j
                        == k || before & (1u128 << j) != 0)) by (bit_vector)
                        requires
                            j < 128,
                            k < 128,
                    ;
                } else {
                    assert(((before & !(1u128 << k)) | 0u128) & (1u128 << j) != 0 <==> (j != k
                        && before & (1u128 << j) != 0)) by (bit_vector)
                        requires
                            j < 128,
                            k < 128,
                    ;
                }
            }
            if pressed {
                assert(self.pressed() =~= old(self).pressed().insert(key_code as nat));
            } else {
                assert(self.pressed() =~= old(self).pressed().remove(key_code as nat));
            }
        }
    }
}

/// The way to move along one axis, from the keys for its two directions.
#[derive(Clone, Copy, PartialEq, Eq, Structural, Debug)]
pub enum Movement {
    /// Neither key is pressed, or both are.
    Still,
    /// Only the key for the positive direction is pressed.
    Positive,
    /// Only the key for the negative direction is pressed.
    Negative,
}

/// Decides the movement along one axis: towards the direction whose key is
/// pressed alone, none where both keys or neither are pressed.
pub fn movement(positive_pressed: bool, negative_pressed: bool) -> (movement: Movement)
    ensures
        movement == if positive_pressed && !negative_pressed {
            Movement::Positive
        } else if negative_pressed && !positive_pressed {
            Movement::Negative
        } else {
            Movement::Still
        },
{
    if positive_pressed && !negative_pressed {
        Movement::Positive
    } else if !positive_pressed && negative_pressed {
        Movement::Negative
    } else {
        Movement::Still
    }
}

} // verus!
