//! A growable buffer of text bytes.

use vstd::prelude::*;
use vstd::string::StringSliceAdditionalSpecFns;

verus! {

/// Bytes of text, appended one piece after the other.
pub struct StringBuffer {
    data: Vec<u8>,
}

impl View for StringBuffer {
    type V = Seq<u8>;

    closed spec fn view(&self) -> Seq<u8> {
        self.data@
    }
}

impl StringBuffer {
    /// A buffer that starts out with `size` zero bytes.
    pub fn new(size: usize) -> (buffer: Self)
        ensures
            buffer@ == Seq::new(size as nat, |i: int| 0u8),
    {
        let data: Vec<u8> = vec![0u8; size];
        assert(data@ =~= Seq::new(size as nat, |i: int| 0u8));
        StringBuffer { data }
    }

    /// The bytes the buffer holds.
    pub fn bytes(&self) -> (bytes: &Vec<u8>)
        ensures
            bytes@ == self@,
    {
        &self.data
    }

    /// Appends the bytes of `string`.
    pub fn append(&mut self, string: &str)
        ensures
            final(self)@ == old(self)@ + string.spec_bytes(),
    {
        self.data.extend_from_slice(string.as_bytes());
        assert(self@ =~= old(self)@ + string.spec_bytes());
    }

    /// Appends text that was produced from the pattern `format`: the bytes of
    /// `formatted`. Producing the text is the caller's part.
    pub fn append_f(&mut self, format: &str, formatted: &str)
        ensures
            final(self)@ == old(self)@ + formatted.spec_bytes(),
    {
        self.data.reserve(format.len());
        self.append(formatted);
    }

    /// Empties the buffer.
    pub fn clear(&mut self)
        ensures
            final(self)@ == Seq::<u8>::empty(),
    {
        self.data.clear();
    }
}

} // verus!
