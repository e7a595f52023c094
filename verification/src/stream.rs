//! The read position of a streamed download: reads follow the bytes downloaded so far,
//! seeks may go anywhere at or after the start.
use vstd::prelude::*;

verus! {

/// Where a seek is measured from.
#[derive(Clone, Copy, PartialEq, Eq, Structural, Debug)]
pub enum SeekFrom {
    Start(u64),
    End(i64),
    Current(i64),
}

/// `x as i64`: the two's-complement reading of a `u64`.
pub open spec fn as_signed(x: u64) -> int {
    if x <= i64::MAX {
        x as int
    } else {
        x - 0x1_0000_0000_0000_0000
    }
}

/// The target of a seek from position `pos` in a stream of `len` bytes (as signed
/// arithmetic computes it).
pub open spec fn seek_target(pos: u64, from: SeekFrom, len: u64) -> int {
    match from {
        SeekFrom::Start(off) => as_signed(off),
        SeekFrom::Current(off) => as_signed(pos) + off,
        SeekFrom::End(off) => as_signed(len) + off,
    }
}

/// `x as i64` is `as_signed(x)`.
pub proof fn lemma_as_signed(x: u64)
    ensures
        (x as i64) as int == as_signed(x),
{
    if x <= 0x7fff_ffff_ffff_ffffu64 {
        assert((x as i64) as int == x as int) by (bit_vector)
            requires
                x <= 0x7fff_ffff_ffff_ffffu64,
        ;
    } else {
        assert((x as i64) as int == x as int - 0x1_0000_0000_0000_0000int) by (bit_vector)
            requires
                x > 0x7fff_ffff_ffff_ffffu64,
        ;
    }
}

/// The read position of a stream.
pub struct StreamingReader {
    pub pos: u64,
}

/// The number of bytes a read hands out from `pos`: what the buffer holds past the
/// position, at most `out_len`.
pub open spec fn read_count(pos: u64, buf_len: usize, out_len: usize) -> nat {
    let available: int = if buf_len > pos {
        buf_len - pos
    } else {
        0
    };
    if out_len < available {
        out_len as nat
    } else {
        available as nat
    }
}

impl StreamingReader {
    /// A reader at the start.
    pub fn new() -> (r: Self)
        ensures
            r.pos == 0,
    {
        StreamingReader { pos: 0 }
    }

    /// How many bytes a read of `out_len` takes from a buffer of `buf_len` bytes, moving
    /// the position past them (see `read_count`); 0 at the end of the data.
    pub fn advance(&mut self, buf_len: usize, out_len: usize) -> (n: usize)
        ensures
            n == read_count(old(self).pos, buf_len, out_len),
            final(self).pos == old(self).pos + n,
    {
        let available: usize = if (buf_len as u64) > self.pos {
            buf_len - self.pos as usize
        } else {
            0
        };
        let n = if out_len < available {
            out_len
        } else {
            available
        };
        self.pos = self.pos + n as u64;
        n
    }

    /// Moves the position (`len`: the whole stream's length, needed for `End`); a target
    /// before the start is refused and the position left alone.
    pub fn seek(&mut self, from: SeekFrom, len: u64) -> (r: Result<u64, String>)
        requires
            i64::MIN <= seek_target(old(self).pos, from, len) <= i64::MAX,
        ensures
            seek_target(old(self).pos, from, len) < 0 ==> r.is_err() && final(self).pos == old(
                self,
            ).pos,
            seek_target(old(self).pos, from, len) >= 0 ==> r == Ok::<u64, String>(
                seek_target(old(self).pos, from, len) as u64,
            ) && final(self).pos == seek_target(old(self).pos, from, len),
            r matches Err(m) ==> m@ == "seek before start of stream"@,
    {
        let pos = self.pos;
        let sp: i64 = #[verifier::truncate] (pos as i64);
        let sl: i64 = #[verifier::truncate] (len as i64);
        proof {
            lemma_as_signed(pos);
            lemma_as_signed(len);
        }
        let new_pos: i64 = match from {
            SeekFrom::Start(off) => {
                proof {
                    lemma_as_signed(off);
                }
                #[verifier::truncate] (off as i64)
            },
            SeekFrom::Current(off) => sp + off,
            SeekFrom::End(off) => sl + off,
        };
        if new_pos < 0 {
            return Err(String::from_str("seek before start of stream"));
        }
        self.pos = new_pos as u64;
        Ok(self.pos)
    }
}

} // verus!
