//! The kernel's view of the console collaborator: an ordered byte sink.
//!
//! The machine's firmware console is external to the core.  The kernel only
//! ever appends bytes to it, so the model records exactly the bytes written,
//! in order; the unverified shell forwards them to the real device.

use crate::digits::{dec_rep, dec_rep_signed, hex_rep_prefixed, push_dec, push_dec_signed, push_hex};
use vstd::prelude::*;
use vstd::string::StringSliceAdditionalSpecFns;

verus! {

/// Everything the kernel has written to the console, oldest byte first.
pub struct Console {
    pub bytes: Vec<u8>,
}

impl View for Console {
    type V = Seq<u8>;

    open spec fn view(&self) -> Seq<u8> {
        self.bytes@
    }
}

impl Console {
    /// A console that nothing has been written to yet.
    pub fn new() -> (c: Console)
        ensures
            c@ == Seq::<u8>::empty(),
    {
        Console { bytes: Vec::new() }
    }

    /// Writes a single byte: the primitive the SBI collaborator exposes.
    pub fn write_byte(&mut self, b: u8)
        ensures
            final(self)@ == old(self)@ + seq![b],
    {
        self.bytes.push(b);
        assert(self@ =~= old(self)@ + seq![b]);
    }

    /// Writes every byte of `data`, in order.
    pub fn write_bytes(&mut self, data: &[u8])
        ensures
            final(self)@ == old(self)@ + data@,
    {
        let ghost orig: Seq<u8> = self@;
        let n = data.len();
        let mut i: usize = 0;
        while i < n
            invariant
                i <= n,
                n == data@.len(),
                self@ == orig + data@.subrange(0, i as int),
            decreases n - i,
        {
            let b = data[i];
            self.bytes.push(b);
            i = i + 1;
            assert(self@ =~= orig + data@.subrange(0, i as int));
        }
        assert(self@ =~= orig + data@);
    }

    /// Writes the UTF-8 bytes of `s`.
    pub fn write_str(&mut self, s: &str)
        ensures
            final(self)@ == old(self)@ + s.spec_bytes(),
    {
        self.write_bytes(s.as_bytes());
    }

    /// Writes the decimal rendering of `n`.
    pub fn write_dec(&mut self, n: usize)
        ensures
            final(self)@ == old(self)@ + dec_rep(n as nat),
    {
        push_dec(&mut self.bytes, n);
    }

    /// Writes the signed decimal rendering of `v`.
    pub fn write_dec_signed(&mut self, v: i32)
        ensures
            final(self)@ == old(self)@ + dec_rep_signed(v as int),
    {
        push_dec_signed(&mut self.bytes, v);
    }

    /// Writes the `0x`-prefixed hexadecimal rendering of `n`.
    pub fn write_hex(&mut self, n: usize)
        ensures
            final(self)@ == old(self)@ + hex_rep_prefixed(n as nat),
    {
        push_hex(&mut self.bytes, n);
    }
}

} // verus!
