//! Run-length (PackBits-style) decoding of one channel's compressed
//! byte stream.
//!
//! A compressed stream is a sequence of control/payload units: a
//! control byte in 0..=127 copies the next control+1 bytes verbatim, a
//! control byte in 129..=255 repeats the single following byte
//! 257-control times, and the control byte 128 is skipped. Decoding
//! stops exactly when the expected output length has been produced and
//! fails deterministically if the stream runs out first or a unit would
//! overshoot the expected length.

use vstd::prelude::*;

use crate::error::ChannelError;

verus! {

/// What decoding a compressed stream yields when exactly `remaining`
/// output bytes are still owed: the decoded bytes, or `None` when the
/// stream is exhausted too early or a unit would overshoot.
pub open spec fn rle_decode_spec(s: Seq<u8>, remaining: int) -> Option<Seq<u8>>
    decreases s.len(),
{
    if remaining < 0 {
        None
    } else if remaining == 0 {
        Some(Seq::<u8>::empty())
    } else if s.len() == 0 {
        None
    } else {
        let control = s[0];
        if control < 128 {
            let n = control + 1;
            if s.len() < 1 + n || remaining < n {
                None
            } else {
                match rle_decode_spec(s.skip(1 + n), remaining - n) {
                    Some(rest) => Some(s.subrange(1, 1 + n) + rest),
                    None => None,
                }
            }
        } else if control == 128 {
            rle_decode_spec(s.skip(1), remaining)
        } else {
            let n = 257 - control;
            if s.len() < 2 || remaining < n {
                None
            } else {
                match rle_decode_spec(s.skip(2), remaining - n) {
                    Some(rest) => Some(Seq::new(n as nat, |i: int| s[1]) + rest),
                    None => None,
                }
            }
        }
    }
}

/// A decoded stream has exactly the owed length: run-length decoding
/// never silently truncates and never overruns.
pub proof fn lemma_rle_decode_len(s: Seq<u8>, remaining: int)
    requires
        rle_decode_spec(s, remaining) is Some,
    ensures
        rle_decode_spec(s, remaining)->Some_0.len() == remaining,
    decreases s.len(),
{
    if remaining == 0 {
    } else {
        let control = s[0];
        if control < 128 {
            let n = control + 1;
            lemma_rle_decode_len(s.skip(1 + n), remaining - n);
        } else if control == 128 {
            lemma_rle_decode_len(s.skip(1), remaining);
        } else {
            let n = 257 - control;
            lemma_rle_decode_len(s.skip(2), remaining - n);
        }
    }
}

/// Decode the units of `bytes` from `pos` on, appending to `out`, until
/// `remaining` output bytes have been produced. Returns false exactly
/// when the spec-level decoding fails.
fn rle_decode_into(bytes: &[u8], pos: usize, remaining: usize, out: &mut Vec<u8>) -> (ok: bool)
    requires
        pos <= bytes@.len(),
    ensures
        match rle_decode_spec(bytes@.skip(pos as int), remaining as int) {
            Some(s) => ok && final(out)@ == old(out)@ + s,
            None => !ok,
        },
    decreases bytes@.len() - pos,
{
    let ghost tail = bytes@.skip(pos as int);
    if remaining == 0 {
        proof {
            assert(old(out)@ + Seq::<u8>::empty() =~= old(out)@);
        }
        return true;
    }
    if pos >= bytes.len() {
        return false;
    }
    let control = bytes[pos];
    proof {
        assert(tail[0] == bytes@[pos as int]);
    }
    if control < 128 {
        let n: usize = control as usize + 1;
        if bytes.len() - pos < 1 + n || remaining < n {
            return false;
        }
        let ghost out0 = out@;
        let mut i: usize = 0;
        while i < n
            invariant
                i <= n,
                pos + 1 + n <= bytes@.len() <= usize::MAX,
                out@ == out0 + bytes@.subrange(pos + 1, pos + 1 + i),
            decreases n - i,
        {
            out.push(bytes[pos + 1 + i]);
            proof {
                assert(out@ =~= out0 + bytes@.subrange(pos + 1, pos + 1 + (i + 1)));
            }
            i += 1;
        }
        proof {
            assert(tail.subrange(1, 1 + n) =~= bytes@.subrange(pos + 1, pos + 1 + n));
            assert(tail.skip(1 + n) =~= bytes@.skip(pos + 1 + n));
        }
        let ok = rle_decode_into(bytes, pos + 1 + n, remaining - n, out);
        proof {
            if rle_decode_spec(tail, remaining as int) is Some {
                let rest = rle_decode_spec(tail.skip(1 + n), remaining - n)->Some_0;
                assert((out0 + tail.subrange(1, 1 + n)) + rest =~= out0 + (tail.subrange(1, 1 + n)
                    + rest));
            }
        }
        ok
    } else if control == 128 {
        proof {
            assert(tail.skip(1) =~= bytes@.skip(pos + 1));
        }
        rle_decode_into(bytes, pos + 1, remaining, out)
    } else {
        let n: usize = 257 - control as usize;
        if bytes.len() - pos < 2 || remaining < n {
            return false;
        }
        let value = bytes[pos + 1];
        proof {
            assert(tail[1] == bytes@[pos + 1]);
        }
        let ghost run = Seq::<u8>::new(n as nat, |i: int| value);
        let ghost out0 = out@;
        let mut i: usize = 0;
        while i < n
            invariant
                i <= n,
                out@ == out0 + run.take(i as int),
                run == Seq::<u8>::new(n as nat, |j: int| value),
            decreases n - i,
        {
            out.push(value);
            proof {
                assert(out@ =~= out0 + run.take(i + 1));
            }
            i += 1;
        }
        proof {
            assert(run.take(n as int) =~= run);
            assert(tail.skip(2) =~= bytes@.skip(pos + 2));
        }
        let ok = rle_decode_into(bytes, pos + 2, remaining - n, out);
        proof {
            if rle_decode_spec(tail, remaining as int) is Some {
                let rest = rle_decode_spec(tail.skip(2), remaining - n)->Some_0;
                assert((out0 + run) + rest =~= out0 + (run + rest));
            }
        }
        ok
    }
}

/// Decompress one channel's run-length compressed stream into exactly
/// `expected_len` raw bytes. Succeeds with the spec-level decoding of
/// the stream; fails with `MalformedRleStream` exactly when the stream
/// is exhausted before `expected_len` bytes are produced or a unit
/// would overshoot that length.
pub fn rle_decompress(bytes: &[u8], expected_len: usize) -> (r: Result<Vec<u8>, ChannelError>)
    ensures
        match rle_decode_spec(bytes@, expected_len as int) {
            Some(s) => r matches Ok(v) && v@ == s && v@.len() == expected_len,
            None => r == Result::<Vec<u8>, ChannelError>::Err(ChannelError::MalformedRleStream),
        },
{
    let mut out: Vec<u8> = Vec::new();
    proof {
        assert(bytes@.skip(0) =~= bytes@);
    }
    let ok = rle_decode_into(bytes, 0, expected_len, &mut out);
    if ok {
        proof {
            let s = rle_decode_spec(bytes@, expected_len as int)->Some_0;
            assert(Seq::<u8>::empty() + s =~= s);
            lemma_rle_decode_len(bytes@, expected_len as int);
        }
        Ok(out)
    } else {
        Err(ChannelError::MalformedRleStream)
    }
}

} // verus!
