use vstd::prelude::*;

use crate::hotline_protocol::{
    lemma_frame_then_parse, lemma_parse_then_frame, parse_frame, HotlineMessage, ParseError, END_DELIMITER_0, END_DELIMITER_1, FRAME_LEN,
    START_DELIMITER_0, START_DELIMITER_1,
};

verus! {

/// What the receiver made of one more byte from the RS485 line.
#[derive(Debug, Clone, Copy, PartialEq, Eq, Structural)]
pub enum ReceiveEvent {
    /// The byte was kept; the frame is not complete yet.
    Pending,
    /// The byte cannot continue a frame: the partial frame was dropped.
    StreamReset,
    /// The byte completed a frame that parsed into this message.
    Received(HotlineMessage),
    /// The byte completed a frame that was refused for this reason.
    Rejected(ParseError),
}

/// What a receiver holding `pending` does with `byte`: the bytes it holds
/// afterwards and the event it reports. A frame must open with the start
/// delimiter; once two bytes are in, any byte is kept until eight are, and
/// then the frame is parsed and the receiver starts over.
pub open spec fn receive_step(pending: Seq<u8>, byte: u8) -> (Seq<u8>, ReceiveEvent) {
    if (pending.len() == 0 && byte == START_DELIMITER_0) || (pending.len() == 1 && pending[0]
        == START_DELIMITER_0 && byte == START_DELIMITER_1) {
        (pending.push(byte), ReceiveEvent::Pending)
    } else if pending.len() > 1 {
        if pending.len() + 1 == FRAME_LEN {
            (
                Seq::empty(),
                match parse_frame(pending.push(byte)) {
                    Ok(message) => ReceiveEvent::Received(message),
                    Err(error) => ReceiveEvent::Rejected(error),
                },
            )
        } else {
            (pending.push(byte), ReceiveEvent::Pending)
        }
    } else {
        (Seq::empty(), ReceiveEvent::StreamReset)
    }
}

/// Feeds `bytes` one by one to a receiver holding `pending`: the bytes it
/// holds at the end and the events it reported, in order.
pub open spec fn receive_all(pending: Seq<u8>, bytes: Seq<u8>) -> (Seq<u8>, Seq<ReceiveEvent>)
    decreases bytes.len(),
{
    if bytes.len() == 0 {
        (pending, Seq::empty())
    } else {
        let (held, events) = receive_all(pending, bytes.drop_last());
        let (next, event) = receive_step(held, bytes.last());
        (next, events.push(event))
    }
}

/// The partial frames a receiver can hold: at most seven bytes, opening with
/// as much of the start delimiter as they have room for.
pub open spec fn valid_pending(pending: Seq<u8>) -> bool {
    &&& pending.len() < FRAME_LEN
    &&& pending.len() >= 1 ==> pending[0] == START_DELIMITER_0
    &&& pending.len() >= 2 ==> pending[1] == START_DELIMITER_1
}

/// Assembles Hotline frames out of the bytes read from the line, one byte at a
/// time, resynchronising on the start delimiter.
pub struct FrameReceiver {
    buffer: [u8; 8],
    index: usize,
}

impl FrameReceiver {
    #[verifier::type_invariant]
    spec fn inv(self) -> bool {
        &&& self.index < FRAME_LEN
        &&& self.index >= 1 ==> self.buffer@[0] == START_DELIMITER_0
        &&& self.index >= 2 ==> self.buffer@[1] == START_DELIMITER_1
    }

    /// The bytes of the partial frame held so far.
    pub closed spec fn pending(self) -> Seq<u8> {
        self.buffer@.take(self.index as int)
    }

    /// A receiver that holds nothing yet.
    pub fn new() -> (receiver: Self)
        ensures
            receiver.pending() == Seq::<u8>::empty(),
    {
        let receiver = FrameReceiver { buffer: [0u8; 8], index: 0 };
        assert(receiver.pending() =~= Seq::<u8>::empty());
        receiver
    }

    /// Takes one more byte from the line.
    pub fn push_byte(&mut self, byte: u8) -> (event: ReceiveEvent)
        ensures
            (final(self).pending(), event) == receive_step(old(self).pending(), byte),
            valid_pending(old(self).pending()),
            valid_pending(final(self).pending()),
    {
        proof {
            use_type_invariant(&*self);
        }
        let index = self.index;
        let mut buffer = self.buffer;
        let ghost pending = self.pending();
        if (index == 0 && byte == START_DELIMITER_0) || (index == 1 && buffer[0]
            == START_DELIMITER_0 && byte == START_DELIMITER_1) {
            buffer[index] = byte;
            self.buffer = buffer;
            self.index = index + 1;
            assert(self.pending() =~= pending.push(byte));
            ReceiveEvent::Pending
        } else if index > 1 {
            buffer[index] = byte;
            if index + 1 == FRAME_LEN {
                assert(buffer@ =~= pending.push(byte));
                let result = HotlineMessage::from_bytes(buffer.as_slice());
                self.index = 0;
                self.buffer = [0u8; 8];
                assert(self.pending() =~= Seq::<u8>::empty());
                match result {
                    Ok(message) => ReceiveEvent::Received(message),
                    Err(error) => ReceiveEvent::Rejected(error),
                }
            } else {
                self.buffer = buffer;
                self.index = index + 1;
                assert(self.pending() =~= pending.push(byte));
                ReceiveEvent::Pending
            }
        } else {
            self.index = 0;
            self.buffer = [0u8; 8];
            assert(self.pending() =~= Seq::<u8>::empty());
            ReceiveEvent::StreamReset
        }
    }
}


/// Every partial frame a receiver can hold leads only to partial frames it
/// can hold, whatever byte comes next.
pub proof fn lemma_step_keeps_valid(pending: Seq<u8>, byte: u8)
    requires
        valid_pending(pending),
    ensures
        valid_pending(receive_step(pending, byte).0),
{
}

/// A message that the receiver hands over is well formed, and the frame it
/// came in is the held bytes followed by the last byte read.
pub proof fn lemma_received_is_well_formed(pending: Seq<u8>, byte: u8)
    requires
        valid_pending(pending),
        receive_step(pending, byte).1 is Received,
    ensures
        receive_step(pending, byte).1->Received_0.wf(),
        receive_step(pending, byte).1->Received_0.frame() == pending.push(byte),
{
    lemma_parse_then_frame(pending.push(byte));
}

/// A fresh receiver that reads the frame of a well-formed message reports
/// seven pending bytes, then that very message, and ends up empty again.
pub proof fn lemma_receive_frame(message: HotlineMessage)
    requires
        message.wf(),
    ensures
        receive_all(Seq::empty(), message.frame()) == (
            Seq::<u8>::empty(),
            seq![
                ReceiveEvent::Pending,
                ReceiveEvent::Pending,
                ReceiveEvent::Pending,
                ReceiveEvent::Pending,
                ReceiveEvent::Pending,
                ReceiveEvent::Pending,
                ReceiveEvent::Pending,
                ReceiveEvent::Received(message),
            ],
        ),
{
    let f = message.frame();
    lemma_frame_then_parse(message);
    reveal_with_fuel(receive_all, 9);
    assert(f.take(7).push(f[7]) =~= f);
    assert(f.drop_last() =~= f.take(7));
    assert(f.take(7).drop_last() =~= f.take(6));
    assert(f.take(6).drop_last() =~= f.take(5));
    assert(f.take(5).drop_last() =~= f.take(4));
    assert(f.take(4).drop_last() =~= f.take(3));
    assert(f.take(3).drop_last() =~= f.take(2));
    assert(f.take(2).drop_last() =~= f.take(1));
    assert(f.take(1).drop_last() =~= f.take(0));
    assert(receive_all(Seq::empty(), f).1 =~= seq![
        ReceiveEvent::Pending,
        ReceiveEvent::Pending,
        ReceiveEvent::Pending,
        ReceiveEvent::Pending,
        ReceiveEvent::Pending,
        ReceiveEvent::Pending,
        ReceiveEvent::Pending,
        ReceiveEvent::Received(message),
    ]);
}


/// `a` is what `b` ends with.
pub open spec fn is_suffix_of(a: Seq<u8>, b: Seq<u8>) -> bool {
    &&& a.len() <= b.len()
    &&& a == b.subrange(b.len() - a.len(), b.len() as int)
}

/// Whatever bytes a receiver reads, it reports one event per byte, holds
/// only a valid partial frame made of the last bytes read, and a message it
/// hands over on the last byte is well formed and came in the last eight
/// bytes read.
pub proof fn lemma_receive_all_last_bytes(pending: Seq<u8>, bytes: Seq<u8>)
    requires
        valid_pending(pending),
    ensures
        receive_all(pending, bytes).1.len() == bytes.len(),
        valid_pending(receive_all(pending, bytes).0),
        is_suffix_of(receive_all(pending, bytes).0, pending + bytes),
        bytes.len() > 0 && receive_all(pending, bytes).1.last() is Received ==> {
            &&& receive_all(pending, bytes).1.last()->Received_0.wf()
            &&& receive_all(pending, bytes).1.last()->Received_0.frame() == (pending
                + bytes).subrange(pending.len() + bytes.len() - FRAME_LEN, (pending.len()
                + bytes.len()) as int)
        },
    decreases bytes.len(),
{
    if bytes.len() == 0 {
        assert((pending + bytes).subrange(0, pending.len() as int) =~= pending);
    } else {
        let rest = bytes.drop_last();
        let b = bytes.last();
        lemma_receive_all_last_bytes(pending, rest);
        let (held, events) = receive_all(pending, rest);
        let all = pending + bytes;
        assert(all =~= (pending + rest).push(b));
        lemma_step_keeps_valid(held, b);
        let (next, event) = receive_step(held, b);
        if next.len() > 0 {
            assert(next =~= held.push(b));
            assert(next =~= all.subrange(all.len() - next.len(), all.len() as int));
        } else {
            assert(next =~= all.subrange(all.len() as int, all.len() as int));
        }
        if event is Received {
            lemma_received_is_well_formed(held, b);
            assert(held.push(b) =~= all.subrange(all.len() - FRAME_LEN, all.len() as int));
        }
    }
}

} // verus!
