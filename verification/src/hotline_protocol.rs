use vstd::prelude::*;

verus! {

// ---------------------------------------------------------------------------
// CRC-8 (polynomial 0x07, initial value 0, no reflection, no final xor)
// ---------------------------------------------------------------------------

/// One shift of the CRC-8 register: shift left, folding in the polynomial
/// when the top bit falls out.
pub open spec fn crc8_shift(c: u8) -> u8 {
    if c & 0x80u8 != 0 {
        (c << 1u8) ^ 0x07u8
    } else {
        c << 1u8
    }
}

/// `n` consecutive shifts of the CRC-8 register.
pub open spec fn crc8_shift_n(c: u8, n: nat) -> u8
    decreases n,
{
    if n == 0 {
        c
    } else {
        crc8_shift(crc8_shift_n(c, (n - 1) as nat))
    }
}

/// The register after absorbing one more byte.
pub open spec fn crc8_update(crc: u8, byte: u8) -> u8 {
    crc8_shift_n(crc ^ byte, 8)
}

/// CRC-8 of a byte sequence.
pub open spec fn crc8(bytes: Seq<u8>) -> u8
    decreases bytes.len(),
{
    if bytes.len() == 0 {
        0
    } else {
        crc8_update(crc8(bytes.drop_last()), bytes.last())
    }
}

/// The check byte of a message: the CRC-8 of its three payload bytes.
pub open spec fn message_crc8(device_id: u8, dio_state_0: u8, dio_state_1: u8) -> u8 {
    crc8(seq![device_id, dio_state_0, dio_state_1])
}

proof fn lemma_shift_linear(x: u8, y: u8)
    by (bit_vector)
    ensures
        crc8_shift(x ^ y) == crc8_shift(x) ^ crc8_shift(y),
        crc8_shift(x) == 0 ==> x == 0,
{
}

proof fn lemma_xor_facts(x: u8, y: u8, z: u8)
    by (bit_vector)
    ensures
        (x ^ z) ^ (y ^ z) == x ^ y,
        (x ^ y) ^ x == y,
        (x ^ y == 0) == (x == y),
        0u8 ^ x == x,
{
}

/// The register shifts are linear over xor and lose no information: only a
/// zero register shifts to zero.
proof fn lemma_shift_n_linear(x: u8, y: u8, n: nat)
    ensures
        crc8_shift_n(x ^ y, n) == crc8_shift_n(x, n) ^ crc8_shift_n(y, n),
        crc8_shift_n(x, n) == 0 ==> x == 0,
    decreases n,
{
    if n > 0 {
        lemma_shift_n_linear(x, y, (n - 1) as nat);
        lemma_shift_linear(crc8_shift_n(x, (n - 1) as nat), crc8_shift_n(y, (n - 1) as nat));
    }
}

/// Absorbing the same byte into two registers leaves their difference shifted
/// by one byte.
proof fn lemma_update_difference(x: u8, y: u8, byte: u8)
    ensures
        crc8_update(x, byte) ^ crc8_update(y, byte) == crc8_shift_n(x ^ y, 8),
{
    lemma_shift_n_linear(x ^ byte, y ^ byte, 8);
    lemma_xor_facts(x, y, byte);
}

proof fn lemma_message_crc8_steps(device_id: u8, dio_state_0: u8, dio_state_1: u8)
    ensures
        message_crc8(device_id, dio_state_0, dio_state_1) == crc8_update(
            crc8_update(crc8_update(0, device_id), dio_state_0),
            dio_state_1,
        ),
{
    let payload = seq![device_id, dio_state_0, dio_state_1];
    assert(payload.drop_last() =~= seq![device_id, dio_state_0]);
    assert(seq![device_id, dio_state_0].drop_last() =~= seq![device_id]);
    assert(seq![device_id].drop_last() =~= Seq::<u8>::empty());
    assert(crc8(Seq::<u8>::empty()) == 0);
    assert(crc8(seq![device_id]) == crc8_update(0, device_id));
    assert(crc8(seq![device_id, dio_state_0]) == crc8_update(
        crc8_update(0, device_id),
        dio_state_0,
    ));
}

/// The check byte catches any single corrupted payload byte: changing exactly
/// one of the three payload bytes, in any way, always changes the check byte.
pub proof fn lemma_crc8_detects_single_byte_errors(
    device_id: u8,
    dio_state_0: u8,
    dio_state_1: u8,
    error: u8,
)
    requires
        error != 0,
    ensures
        message_crc8(device_id ^ error, dio_state_0, dio_state_1) != message_crc8(
            device_id,
            dio_state_0,
            dio_state_1,
        ),
        message_crc8(device_id, dio_state_0 ^ error, dio_state_1) != message_crc8(
            device_id,
            dio_state_0,
            dio_state_1,
        ),
        message_crc8(device_id, dio_state_0, dio_state_1 ^ error) != message_crc8(
            device_id,
            dio_state_0,
            dio_state_1,
        ),
{
    let (d, a, b, e) = (device_id, dio_state_0, dio_state_1, error);
    lemma_message_crc8_steps(d, a, b);
    lemma_message_crc8_steps(d ^ e, a, b);
    lemma_message_crc8_steps(d, a ^ e, b);
    lemma_message_crc8_steps(d, a, b ^ e);
    // a non-zero difference stays non-zero through any number of shifts
    let e1 = crc8_shift_n(e, 8);
    let e2 = crc8_shift_n(e1, 8);
    let e3 = crc8_shift_n(e2, 8);
    lemma_shift_n_linear(e, e, 8);
    lemma_shift_n_linear(e1, e1, 8);
    lemma_shift_n_linear(e2, e2, 8);
    assert(e1 != 0 && e2 != 0 && e3 != 0);
    let r0 = crc8_update(0, d);
    let r1 = crc8_update(r0, a);
    let r2 = crc8_update(r1, b);
    // the device id corrupted
    lemma_update_difference(0, 0, d ^ e);
    lemma_xor_facts(0, d ^ e, d);
    lemma_xor_facts(d, e, 0);
    lemma_xor_facts(0, d, 0);
    let q0 = crc8_update(0, d ^ e);
    lemma_shift_n_linear(d, e, 8);
    lemma_xor_facts(crc8_shift_n(d, 8), crc8_shift_n(e, 8), 0);
    assert(q0 ^ r0 == e1);
    let q1 = crc8_update(q0, a);
    lemma_update_difference(q0, r0, a);
    assert(q1 ^ r1 == e2);
    lemma_update_difference(q1, r1, b);
    lemma_xor_facts(crc8_update(q1, b), r2, 0);
    // the first state byte corrupted
    let p1 = crc8_update(r0, a ^ e);
    lemma_shift_n_linear(r0 ^ a, e, 8);
    lemma_xor_facts(r0 ^ a, e, 0);
    lemma_xor_facts(crc8_shift_n(r0 ^ a, 8), e1, 0);
    assert((r0 ^ a) ^ e == r0 ^ (a ^ e)) by (bit_vector);
    assert(p1 ^ r1 == e1);
    lemma_update_difference(p1, r1, b);
    lemma_xor_facts(crc8_update(p1, b), r2, 0);
    // the second state byte corrupted
    lemma_shift_n_linear(r1 ^ b, e, 8);
    lemma_xor_facts(crc8_shift_n(r1 ^ b, 8), e1, 0);
    assert((r1 ^ b) ^ e == r1 ^ (b ^ e)) by (bit_vector);
    lemma_xor_facts(crc8_update(r1, b ^ e), r2, 0);
}

/// Computes the check byte of a message over the device id and both state bytes.
pub fn calculate_crc8(device_id: u8, dio_state_0: u8, dio_state_1: u8) -> (crc: u8)
    ensures
        crc == message_crc8(device_id, dio_state_0, dio_state_1),
{
    let mut crc = 0u8;
    let bytes = [device_id, dio_state_0, dio_state_1];
    let ghost payload: Seq<u8> = seq![device_id, dio_state_0, dio_state_1];
    assert(bytes@ =~= payload);
    assert(payload.take(0) =~= Seq::<u8>::empty());
    for k in 0..3
        invariant
            bytes@ == payload,
            payload.len() == 3,
            crc == crc8(payload.take(k as int)),
    {
        let byte = bytes[k];
        crc = crc ^ byte;
        let ghost start = crc;
        for j in 0..8
            invariant
                crc == crc8_shift_n(start, j as nat),
        {
            if crc & 0x80 != 0 {
                crc = (crc << 1u8) ^ 0x07;
            } else {
                crc = crc << 1u8;
            }
        }
        assert(payload.take(k + 1).drop_last() =~= payload.take(k as int));
    }
    assert(payload.take(3) =~= payload);
    crc
}


// ---------------------------------------------------------------------------
// Output states <-> state bytes
// ---------------------------------------------------------------------------

/// Whether bit `i` (0 = least significant) of `byte` is set.
pub open spec fn bit_set(byte: u8, i: u8) -> bool {
    byte & (1u8 << i) != 0
}

/// The state of output `i` (0..16) as carried by the two state bytes: outputs
/// 0-7 in the bits of the first byte, outputs 8-15 in those of the second.
pub open spec fn dio_bit(dio_state_0: u8, dio_state_1: u8, i: int) -> bool {
    if i < 8 {
        bit_set(dio_state_0, i as u8)
    } else {
        bit_set(dio_state_1, (i - 8) as u8)
    }
}

/// The sixteen output states that two state bytes carry.
pub open spec fn dio_states(dio_state_0: u8, dio_state_1: u8) -> Seq<bool> {
    Seq::new(16, |i: int| dio_bit(dio_state_0, dio_state_1, i))
}

proof fn lemma_no_bit_set_in_zero(k: u8)
    by (bit_vector)
    requires
        k < 8,
    ensures
        !bit_set(0u8, k),
{
}

proof fn lemma_set_bit(d: u8, i: u8, k: u8)
    by (bit_vector)
    requires
        i < 8,
        k < 8,
    ensures
        bit_set(d | (1u8 << i), k) == (bit_set(d, k) || i == k),
{
}

/// Output bit `i` of a state byte counts from the least significant bit: it
/// is set exactly when the byte divided by 2^i is odd.
pub proof fn lemma_bit_set_value(byte: u8, i: u8)
    by (bit_vector)
    requires
        i < 8,
    ensures
        bit_set(byte, i) == ((byte / (1u8 << i)) % 2 == 1),
{
}

/// A byte is determined by its eight bits.
pub proof fn lemma_byte_from_bits(x: u8, y: u8)
    requires
        forall|k: u8| k < 8 ==> bit_set(x, k) == bit_set(y, k),
    ensures
        x == y,
{
    assert(bit_set(x, 0) == bit_set(y, 0));
    assert(bit_set(x, 1) == bit_set(y, 1));
    assert(bit_set(x, 2) == bit_set(y, 2));
    assert(bit_set(x, 3) == bit_set(y, 3));
    assert(bit_set(x, 4) == bit_set(y, 4));
    assert(bit_set(x, 5) == bit_set(y, 5));
    assert(bit_set(x, 6) == bit_set(y, 6));
    assert(bit_set(x, 7) == bit_set(y, 7));
    assert(x == y) by (bit_vector)
        requires
            (x & (1u8 << 0u8) != 0) == (y & (1u8 << 0u8) != 0),
            (x & (1u8 << 1u8) != 0) == (y & (1u8 << 1u8) != 0),
            (x & (1u8 << 2u8) != 0) == (y & (1u8 << 2u8) != 0),
            (x & (1u8 << 3u8) != 0) == (y & (1u8 << 3u8) != 0),
            (x & (1u8 << 4u8) != 0) == (y & (1u8 << 4u8) != 0),
            (x & (1u8 << 5u8) != 0) == (y & (1u8 << 5u8) != 0),
            (x & (1u8 << 6u8) != 0) == (y & (1u8 << 6u8) != 0),
            (x & (1u8 << 7u8) != 0) == (y & (1u8 << 7u8) != 0),
    ;
}

/// Packs eight consecutive states, starting at `start`, into the bits of a byte.
fn pack_states(states: &[bool; 16], start: usize) -> (byte: u8)
    requires
        start == 0 || start == 8,
    ensures
        forall|k: u8| k < 8 ==> bit_set(byte, k) == states@[start + k],
{
    let mut byte = 0u8;
    proof {
        assert forall|k: u8| k < 8 implies !bit_set(byte, k) by {
            lemma_no_bit_set_in_zero(k);
        }
    }
    for i in 0..8
        invariant
            start == 0 || start == 8,
            forall|k: u8| k < i ==> bit_set(byte, k) == states@[start + k],
            forall|k: u8| i <= k < 8 ==> !bit_set(byte, k),
    {
        let ghost before = byte;
        assert(!bit_set(before, i as u8));
        if states[start + i] {
            byte = byte | (1u8 << (i as u8));
            proof {
                assert forall|k: u8| k < 8 implies bit_set(byte, k) == (bit_set(before, k) || i
                    == k) by {
                    lemma_set_bit(before, i as u8, k);
                }
            }
        }
        assert(bit_set(byte, i as u8) == states@[start + i]);
    }
    byte
}

/// Packs sixteen output states into the two state bytes of a message.
pub fn bool_array_to_dio_states(states: &[bool; 16]) -> (bytes: (u8, u8))
    ensures
        dio_states(bytes.0, bytes.1) == states@,
{
    let dio_state_0 = pack_states(states, 0);
    let dio_state_1 = pack_states(states, 8);
    proof {
        assert forall|i: int| 0 <= i < 16 implies dio_bit(dio_state_0, dio_state_1, i)
            == states@[i] by {
            if i < 8 {
                assert(bit_set(dio_state_0, i as u8) == states@[0 + (i as u8)]);
            } else {
                assert(bit_set(dio_state_1, (i - 8) as u8) == states@[8 + ((i - 8) as u8)]);
            }
        }
    }
    assert(dio_states(dio_state_0, dio_state_1) =~= states@);
    (dio_state_0, dio_state_1)
}

/// Unpacks the two state bytes of a message into sixteen output states.
pub fn dio_states_to_bool_array(dio_state_0: u8, dio_state_1: u8) -> (states: [bool; 16])
    ensures
        states@ == dio_states(dio_state_0, dio_state_1),
{
    let mut states = [false;16];
    for i in 0..8
        invariant
            states@.len() == 16,
            forall|k: int| 0 <= k < i ==> states@[k] == dio_bit(dio_state_0, dio_state_1, k),
    {
        states[i] = (dio_state_0 & (1u8 << (i as u8))) != 0;
    }
    for i in 8..16
        invariant
            states@.len() == 16,
            forall|k: int| 0 <= k < i ==> states@[k] == dio_bit(dio_state_0, dio_state_1, k),
    {
        states[i] = (dio_state_1 & (1u8 << ((i - 8) as u8))) != 0;
    }
    assert(states@ =~= dio_states(dio_state_0, dio_state_1));
    states
}


// ---------------------------------------------------------------------------
// Messages and their frames
// ---------------------------------------------------------------------------

/// First byte of the start delimiter of a frame.
pub const START_DELIMITER_0: u8 = 0xBE;

/// Second byte of the start delimiter of a frame.
pub const START_DELIMITER_1: u8 = 0xEF;

/// First byte of the end delimiter of a frame.
pub const END_DELIMITER_0: u8 = 0xDE;

/// Second byte of the end delimiter of a frame.
pub const END_DELIMITER_1: u8 = 0xAD;

/// Length in bytes of a "Set Full State" frame.
pub const FRAME_LEN: usize = 8;

/// A "Set Full State" command: the device it addresses (0xFF broadcasts) and
/// the states of its sixteen digital outputs, with the CRC-8 that protects them.
#[derive(Debug, Clone, Copy, PartialEq, Eq, Structural)]
pub struct HotlineMessage {
    pub device_id: u8,
    pub dio_state_0: u8,
    pub dio_state_1: u8,
    pub crc8: u8,
}

/// Why a received frame was refused.
#[derive(Debug, Clone, Copy, PartialEq, Eq, Structural)]
pub enum ParseError {
    /// The frame is not eight bytes long.
    InvalidLength,
    /// The frame does not start with 0xBE 0xEF or does not end with 0xDE 0xAD.
    InvalidDelimiters,
    /// The check byte does not match the CRC-8 of the payload.
    InvalidCrc,
}

impl HotlineMessage {
    /// The check byte agrees with the payload.
    pub open spec fn wf(self) -> bool {
        self.crc8 == message_crc8(self.device_id, self.dio_state_0, self.dio_state_1)
    }

    /// The sixteen output states the message carries.
    pub open spec fn states(self) -> Seq<bool> {
        dio_states(self.dio_state_0, self.dio_state_1)
    }

    /// The eight bytes of the message's frame.
    pub open spec fn frame(self) -> Seq<u8> {
        seq![
            START_DELIMITER_0,
            START_DELIMITER_1,
            self.device_id,
            self.dio_state_0,
            self.dio_state_1,
            self.crc8,
            END_DELIMITER_0,
            END_DELIMITER_1,
        ]
    }

    /// Builds the message that sets the sixteen outputs of `device_id` to `states`.
    pub fn new(device_id: u8, states: [bool; 16]) -> (message: Self)
        ensures
            message.device_id == device_id,
            message.states() == states@,
            message.wf(),
    {
        let (dio_state_0, dio_state_1) = bool_array_to_dio_states(&states);
        let crc8 = calculate_crc8(device_id, dio_state_0, dio_state_1);
        HotlineMessage { device_id, dio_state_0, dio_state_1, crc8 }
    }

    /// The frame that carries the message.
    pub fn to_bytes(&self) -> (bytes: [u8; 8])
        ensures
            bytes@ == self.frame(),
    {
        let bytes = [
            START_DELIMITER_0,
            START_DELIMITER_1,
            self.device_id,
            self.dio_state_0,
            self.dio_state_1,
            self.crc8,
            END_DELIMITER_0,
            END_DELIMITER_1,
        ];
        assert(bytes@ =~= self.frame());
        bytes
    }

    /// Reads a message out of a received frame.
    pub fn from_bytes(bytes: &[u8]) -> (result: Result<Self, ParseError>)
        ensures
            result == parse_frame(bytes@),
    {
        if bytes.len() != FRAME_LEN {
            return Err(ParseError::InvalidLength);
        }
        if bytes[0] != START_DELIMITER_0 || bytes[1] != START_DELIMITER_1 || bytes[6]
            != END_DELIMITER_0 || bytes[7] != END_DELIMITER_1 {
            return Err(ParseError::InvalidDelimiters);
        }
        let device_id = bytes[2];
        let dio_state_0 = bytes[3];
        let dio_state_1 = bytes[4];
        let crc8 = bytes[5];

        if crc8 != calculate_crc8(device_id, dio_state_0, dio_state_1) {
            return Err(ParseError::InvalidCrc);
        }
        Ok(HotlineMessage { device_id, dio_state_0, dio_state_1, crc8 })
    }

    /// The state of output `dio_id`, or `None` past the sixteenth output.
    pub fn get_dio_state(&self, dio_id: usize) -> (state: Option<bool>)
        ensures
            dio_id < 16 ==> state == Some(self.states()[dio_id as int]),
            dio_id >= 16 ==> state is None,
    {
        if dio_id < 8 {
            Some((self.dio_state_0 & (1u8 << (dio_id as u8))) != 0)
        } else if dio_id < 16 {
            Some((self.dio_state_1 & (1u8 << ((dio_id - 8) as u8))) != 0)
        } else {
            None
        }
    }
}

/// What a receiver makes of `bytes`: the refusal with its reason, checked in
/// the order length, delimiters, check byte; or the message the frame carries.
pub open spec fn parse_frame(bytes: Seq<u8>) -> Result<HotlineMessage, ParseError> {
    if bytes.len() != FRAME_LEN {
        Err(ParseError::InvalidLength)
    } else if bytes[0] != START_DELIMITER_0 || bytes[1] != START_DELIMITER_1 || bytes[6]
        != END_DELIMITER_0 || bytes[7] != END_DELIMITER_1 {
        Err(ParseError::InvalidDelimiters)
    } else if bytes[5] != message_crc8(bytes[2], bytes[3], bytes[4]) {
        Err(ParseError::InvalidCrc)
    } else {
        Ok(
            HotlineMessage {
                device_id: bytes[2],
                dio_state_0: bytes[3],
                dio_state_1: bytes[4],
                crc8: bytes[5],
            },
        )
    }
}


// ---------------------------------------------------------------------------
// Laws
// ---------------------------------------------------------------------------

/// A well-formed message survives being framed and parsed again unchanged.
pub proof fn lemma_frame_then_parse(message: HotlineMessage)
    requires
        message.wf(),
    ensures
        parse_frame(message.frame()) == Ok::<HotlineMessage, ParseError>(message),
{
}

/// Every frame that parses is exactly the frame of the well-formed message it
/// yields: parsing loses nothing and accepts no frame with a wrong check byte.
pub proof fn lemma_parse_then_frame(bytes: Seq<u8>)
    requires
        parse_frame(bytes) is Ok,
    ensures
        parse_frame(bytes)->Ok_0.wf(),
        parse_frame(bytes)->Ok_0.frame() == bytes,
{
    assert(parse_frame(bytes)->Ok_0.frame() =~= bytes);
}

/// Two pairs of state bytes that carry the same sixteen states are equal, so
/// packing the unpacked states gives back the bytes they came from.
pub proof fn lemma_dio_states_injective(a0: u8, a1: u8, b0: u8, b1: u8)
    requires
        dio_states(a0, a1) == dio_states(b0, b1),
    ensures
        a0 == b0,
        a1 == b1,
{
    assert forall|k: u8| k < 8 implies bit_set(a0, k) == bit_set(b0, k) by {
        let i = k as int;
        assert(dio_states(a0, a1)[i] == dio_bit(a0, a1, i));
        assert(dio_states(b0, b1)[i] == dio_bit(b0, b1, i));
        assert(i as u8 == k);
    }
    assert forall|k: u8| k < 8 implies bit_set(a1, k) == bit_set(b1, k) by {
        let i = k + 8;
        assert(dio_states(a0, a1)[i] == dio_bit(a0, a1, i));
        assert(dio_states(b0, b1)[i] == dio_bit(b0, b1, i));
        assert((i - 8) as u8 == k);
    }
    lemma_byte_from_bits(a0, b0);
    lemma_byte_from_bits(a1, b1);
}

} // verus!
