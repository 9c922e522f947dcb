//! Writing bytes for a trace.
//!
//! Bytes are written like a byte string literal: between `b"` and `"`,
//! with printable ASCII as it is and everything else escaped.

use vstd::prelude::*;

verus! {

/// The lower-case hexadecimal digit for `n`.
pub open spec fn hex_digit(n: int) -> u8 {
    if n < 10 {
        (48 + n) as u8
    } else {
        (97 + n - 10) as u8
    }
}

/// One byte as it is written: `\n`, `\r`, `\t`, `\\`, `\"` and `\0` for
/// the bytes so named, the byte itself where it is printable ASCII, else
/// `\x` and its two hexadecimal digits.
pub open spec fn escape_byte(c: u8) -> Seq<u8> {
    if c == 10 {
        seq![92u8, 110u8]
    } else if c == 13 {
        seq![92u8, 114u8]
    } else if c == 9 {
        seq![92u8, 116u8]
    } else if c == 92 || c == 34 {
        seq![92u8, c]
    } else if c == 0 {
        seq![92u8, 48u8]
    } else if 0x20 <= c < 0x7f {
        seq![c]
    } else {
        seq![92u8, 120u8, hex_digit(c as int / 16), hex_digit(c as int % 16)]
    }
}

/// The bytes of `bytes` as they are written, one after the other.
pub open spec fn escape_bytes(bytes: Seq<u8>) -> Seq<u8>
    decreases bytes.len(),
{
    if bytes.len() == 0 {
        Seq::empty()
    } else {
        escape_bytes(bytes.drop_last()) + escape_byte(bytes.last())
    }
}

/// `bytes` as written for a trace: `b"`, the escaped bytes, `"`.
pub open spec fn escaped(bytes: Seq<u8>) -> Seq<u8> {
    seq![98u8, 34u8] + escape_bytes(bytes) + seq![34u8]
}

/// What is written of `bufs` when `nwritten` bytes of them were written:
/// buffer after buffer, each as far as it was written, until the count is
/// used up.
pub open spec fn vectored(bufs: Seq<Seq<u8>>, nwritten: nat) -> Seq<u8>
    decreases bufs.len(),
{
    if bufs.len() == 0 || nwritten == 0 {
        Seq::empty()
    } else {
        let n = if nwritten < bufs[0].len() {
            nwritten
        } else {
            bufs[0].len()
        };
        escaped(bufs[0].take(n as int)) + vectored(bufs.skip(1), (nwritten - n) as nat)
    }
}

/// The lower-case hexadecimal digit for `n`.
fn hex(n: u8) -> (c: u8)
    requires
        n < 16,
    ensures
        c == hex_digit(n as int),
{
    if n < 10 {
        48 + n
    } else {
        97 + (n - 10)
    }
}

/// Bytes to write for a trace.
#[derive(Clone, Copy, Debug)]
pub struct Escape<'a>(pub &'a [u8]);

impl<'a> Escape<'a> {
    /// Adds the bytes as written for a trace to `out`.
    pub fn write_to(&self, out: &mut Vec<u8>)
        ensures
            final(out)@ == old(out)@ + escaped(self.0@),
    {
        let ghost start = out@;
        out.push(98);
        out.push(34);
        let mut i: usize = 0;
        while i < self.0.len()
            invariant
                i <= self.0.len(),
                out@ == start + seq![98u8, 34u8] + escape_bytes(self.0@.take(i as int)),
            decreases self.0.len() - i,
        {
            let c = self.0[i];
            let ghost before = out@;
            if c == 10 {
                out.push(92);
                out.push(110);
            } else if c == 13 {
                out.push(92);
                out.push(114);
            } else if c == 9 {
                out.push(92);
                out.push(116);
            } else if c == 92 || c == 34 {
                out.push(92);
                out.push(c);
            } else if c == 0 {
                out.push(92);
                out.push(48);
            } else if 0x20 <= c && c < 0x7f {
                out.push(c);
            } else {
                out.push(92);
                out.push(120);
                out.push(hex(c / 16));
                out.push(hex(c % 16));
            }
            proof {
                let upto = self.0@.take(i + 1);
                assert(upto.drop_last() =~= self.0@.take(i as int));
                assert(upto.last() == c);
                assert(out@ =~= before + escape_byte(c));
                assert(out@ =~= start + seq![98u8, 34u8] + escape_bytes(upto));
            }
            i += 1;
        }
        out.push(34);
        proof {
            assert(self.0@.take(self.0@.len() as int) =~= self.0@);
            assert(out@ =~= start + escaped(self.0@));
        }
    }

    /// The bytes as written for a trace.
    pub fn fmt(&self) -> (out: Vec<u8>)
        ensures
            out@ == escaped(self.0@),
    {
        let mut out: Vec<u8> = Vec::new();
        self.write_to(&mut out);
        proof {
            assert(Seq::<u8>::empty() + escaped(self.0@) =~= escaped(self.0@));
        }
        out
    }
}

/// Buffers of which a number of bytes were written.
#[derive(Clone, Copy, Debug)]
pub struct Vectored<'a> {
    pub bufs: &'a Vec<Vec<u8>>,
    pub nwritten: usize,
}

/// The bytes of each buffer.
pub open spec fn buffer_bytes(bufs: Seq<Vec<u8>>) -> Seq<Seq<u8>> {
    bufs.map_values(|b: Vec<u8>| b@)
}

impl<'a> Vectored<'a> {
    /// What was written, as written for a trace.
    pub fn fmt(&self) -> (out: Vec<u8>)
        ensures
            out@ == vectored(buffer_bytes(self.bufs@), self.nwritten as nat),
    {
        let ghost all = buffer_bytes(self.bufs@);
        let mut out: Vec<u8> = Vec::new();
        let mut left = self.nwritten;
        let mut i: usize = 0;
        proof {
            assert(all.skip(0) =~= all);
            assert(out@ + vectored(all, left as nat) =~= vectored(all, left as nat));
        }
        while i < self.bufs.len() && left > 0
            invariant
                i <= self.bufs.len(),
                all == buffer_bytes(self.bufs@),
                out@ + vectored(all.skip(i as int), left as nat) == vectored(
                    all,
                    self.nwritten as nat,
                ),
            decreases self.bufs.len() - i,
        {
            let buf = &self.bufs[i];
            let n = if left < buf.len() {
                left
            } else {
                buf.len()
            };
            let ghost before = out@;
            let ghost rest = all.skip(i as int);
            let piece = vstd::slice::slice_subrange(buf.as_slice(), 0, n);
            Escape(piece).write_to(&mut out);
            proof {
                assert(rest[0] == buf@);
                assert(piece@ =~= rest[0].take(n as int));
                assert(rest.skip(1) =~= all.skip(i + 1));
                assert(out@ + vectored(all.skip(i + 1), (left - n) as nat) =~= before + vectored(
                    rest,
                    left as nat,
                ));
            }
            left = left - n;
            i += 1;
        }
        proof {
            assert(vectored(all.skip(i as int), left as nat) =~= Seq::<u8>::empty());
            assert(out@ + Seq::<u8>::empty() =~= out@);
        }
        out
    }
}

} // verus!
