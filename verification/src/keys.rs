use vstd::prelude::*;

verus! {

/// Whether a key is held down, given the state word that the keyboard reports for it:
/// the most significant bit of the word is set exactly while the key is down.
pub fn key_is_down(state: i16) -> (down: bool)
    ensures
        down == (state < 0),
{
    let word: u16 = state as u16;
    let down = (word & 0x8000u16) != 0;
    assert(((state as u16) & 0x8000u16) != 0 <==> state < 0) by (bit_vector);
    down
}

/// Whether the keys ask for the text to be sent: Enter is down and Shift is not
/// (Shift with Enter starts a new line instead).
pub fn send_keys_pressed(enter_state: i16, shift_state: i16) -> (send: bool)
    ensures
        send == (enter_state < 0 && !(shift_state < 0)),
{
    key_is_down(enter_state) && !key_is_down(shift_state)
}

} // verus!
