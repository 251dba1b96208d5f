use vstd::prelude::*;
use vstd::string::StringSliceAdditionalSpecFns;
use vstd::utf8::{encode_utf8_valid_utf8, valid_utf8, valid_utf8_concat};

use crate::text::str_from_utf8;

verus! {

/// A text sink over a caller's buffer: what is written goes to the front of
/// the buffer, and a write that would not fit is refused whole.
pub struct SimpleWriter<'a> {
    pub buffer: &'a mut [u8],
    pub index: usize,
}

impl<'a> SimpleWriter<'a> {
    /// The write position lies within the buffer, and what was written is
    /// UTF-8 text.
    pub open spec fn inv(&self) -> bool {
        &&& self.index <= self.buffer@.len()
        &&& valid_utf8(self.written())
    }

    /// The bytes written so far.
    pub open spec fn written(&self) -> Seq<u8> {
        self.buffer@.take(self.index as int)
    }

    /// A writer that fills `buffer` from its start; the caller's buffer ends
    /// up holding whatever the writer leaves in it.
    pub fn new(buffer: &'a mut [u8]) -> (writer: Self)
        ensures
            writer.inv(),
            writer.index == 0,
            writer.buffer@ == old(buffer)@,
            final(buffer)@ == final(writer.buffer)@,
    {
        let writer = SimpleWriter { buffer, index: 0 };
        assert(writer.written() =~= Seq::<u8>::empty());
        writer
    }

    /// The text written so far.
    pub fn as_str(&self) -> (text: &str)
        requires
            self.inv(),
        ensures
            text.spec_bytes() == self.written(),
    {
        let written = vstd::slice::slice_subrange(&*self.buffer, 0, self.index);
        str_from_utf8(written).unwrap()
    }

    /// Copies the UTF-8 bytes of `s` behind what was written, if they fit in
    /// what is left of the buffer; otherwise changes nothing and reports the
    /// error. The rest of the buffer is left as it was either way.
    pub fn write_str(&mut self, s: &str) -> (result: core::fmt::Result)
        requires
            old(self).inv(),
        ensures
            final(self).inv(),
            final(final(self).buffer)@ == final(old(self).buffer)@,
            old(self).index + s.spec_bytes().len() <= old(self).buffer@.len() ==> {
                &&& result is Ok
                &&& final(self).index == old(self).index + s.spec_bytes().len()
                &&& final(self).buffer@ == old(self).written() + s.spec_bytes() + old(
                    self,
                ).buffer@.skip(old(self).index + s.spec_bytes().len())
            },
            old(self).index + s.spec_bytes().len() > old(self).buffer@.len() ==> {
                &&& result is Err
                &&& final(self).index == old(self).index
                &&& final(self).buffer@ == old(self).buffer@
            },
    {
        let bytes = s.as_bytes();
        let len = bytes.len();
        if len <= self.buffer.len() - self.index {
            let start = self.index;
            let ghost before = self.buffer@;
            for k in 0..len
                invariant
                    bytes@ == s.spec_bytes(),
                    len == bytes@.len(),
                    start + len <= self.buffer.len(),
                    self.index == start,
                    self.buffer@.len() == before.len(),
                    final(self.buffer)@ == final(old(self).buffer)@,
                    forall|j: int| 0 <= j < start ==> self.buffer@[j] == before[j],
                    forall|j: int| start + len <= j < before.len() ==> self.buffer@[j] == before[j],
                    forall|j: int| 0 <= j < k ==> self.buffer@[start + j] == bytes@[j],
            {
                self.buffer[start + k] = bytes[k];
            }
            self.index = start + len;
            proof {
                encode_utf8_valid_utf8(s@);
                valid_utf8_concat(old(self).written(), s.spec_bytes());
                assert(self.written() =~= old(self).written() + s.spec_bytes());
                assert(self.buffer@ =~= old(self).written() + s.spec_bytes() + before.skip(
                    start + len,
                ));
            }
            Ok(())
        } else {
            Err(core::fmt::Error::default())
        }
    }
}

} // verus!
