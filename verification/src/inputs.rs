use vstd::prelude::*;

use crate::outputs::{MEGAPOOFER_DEVICE_ID, SIGN_DEVICE_ID};

verus! {

/// The installation an input controller is configured for.
#[derive(Debug, Clone, Copy, PartialEq, Eq, Structural)]
pub enum InputMode {
    /// Pilot and five solenoid switches, sent to device 0x00.
    Sign,
    /// Pilot and three solenoid switches, sent to device 0x01.
    MegaPoofer,
}

/// A configuration an input controller cannot run with.
#[derive(Debug, Clone, Copy, PartialEq, Eq, Structural)]
pub enum ConfigError {
    /// Both configuration pins are grounded.
    BothSelected,
    /// Neither configuration pin is grounded.
    NoneSelected,
}

/// What the pilot switch did since the last reading.
#[derive(Debug, Clone, Copy, PartialEq, Eq, Structural)]
pub enum PilotEvent {
    /// The pilot was off and is now on.
    Lit,
    /// The pilot was on and is now off.
    TurnedOff,
}

impl InputMode {
    /// The device id of the installation the messages go to.
    pub open spec fn spec_device_id(self) -> u8 {
        match self {
            InputMode::Sign => SIGN_DEVICE_ID,
            InputMode::MegaPoofer => MEGAPOOFER_DEVICE_ID,
        }
    }

    /// The number of solenoid switches of the installation.
    pub open spec fn spec_switch_count(self) -> nat {
        match self {
            InputMode::Sign => 5,
            InputMode::MegaPoofer => 3,
        }
    }

    /// The device id of the installation the messages go to.
    pub fn device_id(&self) -> (id: u8)
        ensures
            id == self.spec_device_id(),
    {
        match self {
            InputMode::Sign => SIGN_DEVICE_ID,
            InputMode::MegaPoofer => MEGAPOOFER_DEVICE_ID,
        }
    }

    /// The number of solenoid switches of the installation.
    pub fn switch_count(&self) -> (count: usize)
        ensures
            count == self.spec_switch_count(),
    {
        match self {
            InputMode::Sign => 5,
            InputMode::MegaPoofer => 3,
        }
    }
}

/// Picks the installation from the two configuration pins (true: grounded).
pub fn select_mode(sign_selected: bool, megapoofer_selected: bool) -> (mode: Result<
    InputMode,
    ConfigError,
>)
    ensures
        sign_selected && !megapoofer_selected ==> mode == Ok::<InputMode, ConfigError>(
            InputMode::Sign,
        ),
        megapoofer_selected && !sign_selected ==> mode == Ok::<InputMode, ConfigError>(
            InputMode::MegaPoofer,
        ),
        sign_selected && megapoofer_selected ==> mode == Err::<InputMode, ConfigError>(
            ConfigError::BothSelected,
        ),
        !sign_selected && !megapoofer_selected ==> mode == Err::<InputMode, ConfigError>(
            ConfigError::NoneSelected,
        ),
{
    if sign_selected && !megapoofer_selected {
        Ok(InputMode::Sign)
    } else if megapoofer_selected && !sign_selected {
        Ok(InputMode::MegaPoofer)
    } else if sign_selected && megapoofer_selected {
        Err(ConfigError::BothSelected)
    } else {
        Err(ConfigError::NoneSelected)
    }
}

/// The sixteen output states an input controller sends: output 0 follows the
/// pilot, output `k + 1` follows switch `k` or the "all" switch, the rest are off.
pub open spec fn input_states_spec(pilot: bool, switches: Seq<bool>, all: bool) -> Seq<bool> {
    Seq::new(
        16,
        |i: int|
            if i == 0 {
                pilot
            } else if i <= switches.len() {
                switches[i - 1] || all
            } else {
                false
            },
    )
}

/// Builds the output states from the pilot switch, the solenoid switches and
/// the "all" switch (true: pressed).
pub fn input_states(pilot: bool, switches: &[bool], all: bool) -> (states: [bool; 16])
    requires
        switches.len() < 16,
    ensures
        states@ == input_states_spec(pilot, switches@, all),
{
    let mut states = [false;16];
    states[0] = pilot;
    for k in 0..switches.len()
        invariant
            switches.len() < 16,
            states@.len() == 16,
            states@[0] == pilot,
            forall|i: int| 1 <= i <= k ==> states@[i] == (switches@[i - 1] || all),
            forall|i: int| k < i < 16 ==> !states@[i],
    {
        states[k + 1] = switches[k] || all;
    }
    assert(states@ =~= input_states_spec(pilot, switches@, all));
    states
}

/// What the pilot switch did, given whether the pilot was lit before and
/// whether its switch is on now; the pilot is lit afterwards exactly when
/// its switch is on.
pub fn pilot_transition(was_lit: bool, pilot: bool) -> (event: Option<PilotEvent>)
    ensures
        pilot && !was_lit ==> event == Some(PilotEvent::Lit),
        !pilot && was_lit ==> event == Some(PilotEvent::TurnedOff),
        pilot == was_lit ==> event is None,
{
    if pilot {
        if !was_lit {
            Some(PilotEvent::Lit)
        } else {
            None
        }
    } else if was_lit {
        Some(PilotEvent::TurnedOff)
    } else {
        None
    }
}


/// What the sent states mean: output 0 is the pilot; while "all" is pressed
/// every solenoid output is on; otherwise solenoid output `k + 1` follows
/// switch `k`; a pressed switch always turns its output on; and the outputs
/// past the installation's switches are off.
pub proof fn lemma_input_states_meaning(pilot: bool, switches: Seq<bool>, all: bool)
    requires
        switches.len() < 16,
    ensures
        input_states_spec(pilot, switches, all).len() == 16,
        input_states_spec(pilot, switches, all)[0] == pilot,
        all ==> forall|k: int|
            0 <= k < switches.len() ==> #[trigger] input_states_spec(pilot, switches, all)[k + 1],
        !all ==> forall|k: int|
            0 <= k < switches.len() ==> #[trigger] input_states_spec(pilot, switches, all)[k + 1]
                == switches[k],
        forall|k: int|
            0 <= k < switches.len() && #[trigger] switches[k] ==> input_states_spec(
                pilot,
                switches,
                all,
            )[k + 1],
        forall|i: int|
            switches.len() < i < 16 ==> !#[trigger] input_states_spec(pilot, switches, all)[i],
{
}

} // verus!
