use vstd::prelude::*;

use crate::hotline_protocol::HotlineMessage;

verus! {

/// Device id of the Sign.
pub const SIGN_DEVICE_ID: u8 = 0x00;

/// Device id of the MegaPoofer.
pub const MEGAPOOFER_DEVICE_ID: u8 = 0x01;

/// Device id that addresses every output board.
pub const BROADCAST_DEVICE_ID: u8 = 0xFF;

/// Number of outputs an output board drives.
pub const OUTPUT_COUNT: usize = 8;

/// Whether a message for `device_id` drives output `output` of an output
/// board: outputs 0-3 follow the Sign, the MegaPoofer and broadcasts, outputs
/// 4-5 the Sign and broadcasts, outputs 6-7 broadcasts only.
pub open spec fn controls_output(device_id: u8, output: int) -> bool {
    if output < 4 {
        device_id == SIGN_DEVICE_ID || device_id == MEGAPOOFER_DEVICE_ID || device_id
            == BROADCAST_DEVICE_ID
    } else if output < 6 {
        device_id == SIGN_DEVICE_ID || device_id == BROADCAST_DEVICE_ID
    } else {
        device_id == BROADCAST_DEVICE_ID
    }
}

/// The new state output `output` must be switched to, if any: the message's
/// state for it, when the message drives it and that state differs.
pub open spec fn output_change(states: Seq<bool>, message: HotlineMessage, output: int) -> Option<
    bool,
> {
    if controls_output(message.device_id, output) && message.states()[output] != states[output] {
        Some(message.states()[output])
    } else {
        None
    }
}

/// The switches a message asks for, one per output.
pub open spec fn output_changes(states: Seq<bool>, message: HotlineMessage) -> Seq<Option<bool>> {
    Seq::new(OUTPUT_COUNT as nat, |k: int| output_change(states, message, k))
}

/// The output states after a message: driven outputs take the message's state,
/// the others keep theirs.
pub open spec fn applied_states(states: Seq<bool>, message: HotlineMessage) -> Seq<bool> {
    Seq::new(
        OUTPUT_COUNT as nat,
        |k: int|
            if controls_output(message.device_id, k) {
                message.states()[k]
            } else {
                states[k]
            },
    )
}

/// Applies a received message to the recorded states of the eight outputs and
/// returns, per output, the state it must be switched to (`None`: leave it).
pub fn apply_message(states: &mut [bool; 8], message: &HotlineMessage) -> (changes: [Option<
    bool,
>; 8])
    ensures
        final(states)@ == applied_states(old(states)@, *message),
        changes@ == output_changes(old(states)@, *message),
{
    let device_id = message.device_id;
    let mut changes: [Option<bool>; 8] = [None;8];
    for k in 0..OUTPUT_COUNT
        invariant
            states@.len() == 8,
            changes@.len() == 8,
            device_id == message.device_id,
            forall|j: int| k <= j < 8 ==> states@[j] == old(states)@[j],
            forall|j: int| k <= j < 8 ==> changes@[j] is None,
            forall|j: int|
                0 <= j < k ==> states@[j] == applied_states(old(states)@, *message)[j],
            forall|j: int| 0 <= j < k ==> changes@[j] == output_change(old(states)@, *message, j),
    {
        let drives = if k < 4 {
            device_id == MEGAPOOFER_DEVICE_ID || device_id == SIGN_DEVICE_ID || device_id
                == BROADCAST_DEVICE_ID
        } else if k < 6 {
            device_id == SIGN_DEVICE_ID || device_id == BROADCAST_DEVICE_ID
        } else {
            device_id == BROADCAST_DEVICE_ID
        };
        if drives {
            if let Some(state) = message.get_dio_state(k) {
                if state != states[k] {
                    changes[k] = Some(state);
                    states[k] = state;
                }
            }
        }
    }
    assert(states@ =~= applied_states(old(states)@, *message));
    assert(changes@ =~= output_changes(old(states)@, *message));
    changes
}

/// Once a message has been applied, applying it again changes nothing.
pub proof fn lemma_apply_idempotent(states: Seq<bool>, message: HotlineMessage)
    requires
        states.len() == OUTPUT_COUNT,
    ensures
        applied_states(applied_states(states, message), message) == applied_states(
            states,
            message,
        ),
        output_changes(applied_states(states, message), message) == Seq::new(
            OUTPUT_COUNT as nat,
            |k: int| None::<bool>,
        ),
{
    assert(applied_states(applied_states(states, message), message) =~= applied_states(
        states,
        message,
    ));
    assert(output_changes(applied_states(states, message), message) =~= Seq::new(
        OUTPUT_COUNT as nat,
        |k: int| None::<bool>,
    ));
}

/// Switching each output as the returned changes say leaves the outputs in
/// the states the message asks for.
pub proof fn lemma_changes_reach_applied(states: Seq<bool>, message: HotlineMessage)
    requires
        states.len() == OUTPUT_COUNT,
    ensures
        forall|k: int|
            0 <= k < OUTPUT_COUNT ==> applied_states(states, message)[k] == match output_changes(
                states,
                message,
            )[k] {
                Some(state) => state,
                None => states[k],
            },
{
}


/// Which outputs each device id drives, stated output by output: a broadcast
/// (0xFF) drives all eight, the Sign (0x00) outputs 0-5, the MegaPoofer (0x01)
/// outputs 0-3, and any other id none. A driven output takes the message's
/// state, and a switch is reported exactly where that state differs from the
/// recorded one; every other output keeps its state and reports no switch.
pub proof fn lemma_outputs_by_device(states: Seq<bool>, message: HotlineMessage)
    requires
        states.len() == 8,
    ensures
        forall|k: int|
            #![trigger applied_states(states, message)[k]]
            #![trigger output_changes(states, message)[k]]
            0 <= k < 8 ==> {
                let driven = message.device_id == 0xFF || (message.device_id == 0x00 && k < 6)
                    || (message.device_id == 0x01 && k < 4);
                &&& driven ==> applied_states(states, message)[k] == message.states()[k]
                &&& driven ==> output_changes(states, message)[k] == if message.states()[k]
                    != states[k] {
                    Some(message.states()[k])
                } else {
                    None
                }
                &&& !driven ==> applied_states(states, message)[k] == states[k]
                &&& !driven ==> output_changes(states, message)[k] == None::<bool>
            },
{
}

/// A broadcast makes every output follow the message: afterwards the eight
/// outputs hold exactly the message's first eight states.
pub proof fn lemma_broadcast_sets_all(states: Seq<bool>, message: HotlineMessage)
    requires
        states.len() == 8,
        message.device_id == 0xFF,
    ensures
        applied_states(states, message) == message.states().take(8),
{
    lemma_outputs_by_device(states, message);
    assert(applied_states(states, message) =~= message.states().take(8));
}

} // verus!
