//! Consistent Overhead Byte Stuffing over zero-delimited frames.
//!
//! Encoding turns arbitrary bytes into a sequence with no interior zero
//! byte, closed by a single zero delimiter. The encoded stream is a run
//! of blocks: a code byte `c` in `1..=255` followed by `c - 1` non-zero
//! data bytes. A block with `c < 255` that is not the last one stands
//! for its data bytes followed by a zero; a block with `c == 255`
//! stands for its 254 data bytes alone.
//!
//! `cobs_encode` and `cobs_decode` are proved inverse of each other:
//! see [`lemma_cobs_round_trip`].

use vstd::prelude::*;

verus! {

/// Length of the zero-free prefix of a byte sequence.
pub open spec fn group_len(data: Seq<u8>) -> nat
    decreases data.len(),
{
    if data.len() == 0 {
        0
    } else if data[0] == 0 {
        0
    } else {
        1 + group_len(data.skip(1))
    }
}

/// `group_len` is the index of the first zero, or the length if none.
pub proof fn lemma_group_len(data: Seq<u8>)
    ensures
        group_len(data) <= data.len(),
        forall|i: int| 0 <= i < group_len(data) ==> data[i] != 0,
        group_len(data) < data.len() ==> data[group_len(data) as int] == 0,
    decreases data.len(),
{
    if data.len() == 0 {
    } else if data[0] == 0 {
    } else {
        lemma_group_len(data.skip(1));
        assert forall|i: int| 0 <= i < group_len(data) implies data[i] != 0 by {
            if i >= 1 {
                assert(data.skip(1)[i - 1] == data[i]);
            }
        }
        if group_len(data) < data.len() {
            assert(data.skip(1)[group_len(data) - 1] == data[group_len(data) as int]);
        }
    }
}

/// A sequence whose first `k` bytes are non-zero has a zero-free prefix
/// of at least `k`.
pub proof fn lemma_group_len_at_least(data: Seq<u8>, k: int)
    requires
        0 <= k <= data.len(),
        forall|i: int| 0 <= i < k ==> data[i] != 0,
    ensures
        group_len(data) >= k,
    decreases k,
{
    if k > 0 {
        assert forall|i: int| 0 <= i < k - 1 implies data.skip(1)[i] != 0 by {
            assert(data.skip(1)[i] == data[i + 1]);
        }
        lemma_group_len_at_least(data.skip(1), k - 1);
    }
}

/// A zero byte bounds the zero-free prefix.
pub proof fn lemma_group_len_at_most(data: Seq<u8>, k: int)
    requires
        0 <= k < data.len(),
        data[k] == 0,
    ensures
        group_len(data) <= k,
{
    lemma_group_len(data);
    if group_len(data) > k {
        assert(data[k] != 0);
    }
}

/// The body of the COBS encoding of `data`: all blocks, without the
/// trailing zero delimiter.
pub open spec fn cobs_body(data: Seq<u8>) -> Seq<u8>
    decreases data.len(),
{
    let g = group_len(data);
    if g < 254 && g < data.len() {
        // a zero inside the first 254 bytes closes this block
        seq![(g + 1) as u8] + data.take(g as int) + cobs_body(data.skip(g as int + 1))
    } else if data.len() > 254 {
        // a maximal block of 254 bytes, with more input to follow
        seq![255u8] + data.take(254) + cobs_body(data.skip(254))
    } else {
        // the final block takes all remaining bytes
        seq![(data.len() + 1) as u8] + data
    }
}

/// The full COBS encoding of `data`, including the zero delimiter.
pub open spec fn cobs_encoding(data: Seq<u8>) -> Seq<u8> {
    cobs_body(data) + seq![0u8]
}

/// What an encoded sequence decodes to, or `None` where it is malformed:
/// empty, truncated, holding an interior zero, or carrying bytes past
/// the delimiter.
pub open spec fn cobs_decoding(enc: Seq<u8>) -> Option<Seq<u8>>
    decreases enc.len(),
{
    if enc.len() == 0 {
        None
    } else if enc[0] == 0 {
        if enc.len() == 1 {
            Some(Seq::empty())
        } else {
            None
        }
    } else {
        let c = enc[0] as int;
        if enc.len() < c + 1 {
            None
        } else {
            let body = enc.subrange(1, c);
            if exists|i: int| 0 <= i < body.len() && body[i] == 0 {
                None
            } else if enc[c] == 0 {
                if enc.len() == c + 1 {
                    Some(body)
                } else {
                    None
                }
            } else {
                match cobs_decoding(enc.skip(c)) {
                    None => None,
                    Some(tail) => if c < 255 {
                        Some(body + seq![0u8] + tail)
                    } else {
                        Some(body + tail)
                    },
                }
            }
        }
    }
}

/// The encoded body is never empty and holds no zero byte.
pub proof fn lemma_cobs_body_no_zeros(data: Seq<u8>)
    ensures
        cobs_body(data).len() >= 1,
        forall|i: int| 0 <= i < cobs_body(data).len() ==> cobs_body(data)[i] != 0,
    decreases data.len(),
{
    lemma_group_len(data);
    let g = group_len(data);
    if g < 254 && g < data.len() {
        lemma_cobs_body_no_zeros(data.skip(g as int + 1));
        let out = seq![(g + 1) as u8] + data.take(g as int) + cobs_body(data.skip(g as int + 1));
        assert forall|i: int| 0 <= i < out.len() implies out[i] != 0 by {
            if i == 0 {
            } else if i <= g {
                assert(out[i] == data.take(g as int)[i - 1]);
                assert(data[i - 1] != 0);
            } else {
                assert(out[i] == cobs_body(data.skip(g as int + 1))[i - 1 - g]);
            }
        }
    } else if data.len() > 254 {
        lemma_cobs_body_no_zeros(data.skip(254));
        let out = seq![255u8] + data.take(254) + cobs_body(data.skip(254));
        assert forall|i: int| 0 <= i < out.len() implies out[i] != 0 by {
            if i == 0 {
            } else if i <= 254 {
                assert(out[i] == data.take(254)[i - 1]);
                assert(data[i - 1] != 0);
            } else {
                assert(out[i] == cobs_body(data.skip(254))[i - 1 - 254]);
            }
        }
    } else {
        let out = seq![(data.len() + 1) as u8] + data;
        assert(g == data.len());
        assert forall|i: int| 0 <= i < out.len() implies out[i] != 0 by {
            if i >= 1 {
                assert(out[i] == data[i - 1]);
                assert(data[i - 1] != 0);
            }
        }
    }
}

/// The encoding ends with the delimiter and holds no zero before it.
pub proof fn lemma_cobs_encoding_shape(data: Seq<u8>)
    ensures
        cobs_encoding(data).len() >= 2,
        cobs_encoding(data).last() == 0,
        forall|i: int| 0 <= i < cobs_encoding(data).len() - 1 ==> cobs_encoding(data)[i] != 0,
{
    lemma_cobs_body_no_zeros(data);
    let enc = cobs_encoding(data);
    assert forall|i: int| 0 <= i < enc.len() - 1 implies enc[i] != 0 by {
        assert(enc[i] == cobs_body(data)[i]);
    }
}

/// Decoding a block that more blocks follow.
proof fn lemma_decode_middle_block(c: u8, body: Seq<u8>, rest: Seq<u8>)
    requires
        c >= 1,
        body.len() == c - 1,
        forall|i: int| 0 <= i < body.len() ==> body[i] != 0,
        rest.len() >= 1,
        rest[0] != 0,
    ensures
        cobs_decoding(seq![c] + body + rest) == match cobs_decoding(rest) {
            None => None::<Seq<u8>>,
            Some(tail) => if c < 255 {
                Some(body + seq![0u8] + tail)
            } else {
                Some(body + tail)
            },
        },
{
    let enc = seq![c] + body + rest;
    assert(enc[0] == c);
    assert(enc.len() == c + rest.len());
    let cc = c as int;
    assert(enc.subrange(1, cc) =~= body);
    assert(enc[cc] == rest[0]);
    assert(enc.skip(cc) =~= rest);
}

/// Decoding the final block before the delimiter.
proof fn lemma_decode_final_block(c: u8, body: Seq<u8>)
    requires
        c >= 1,
        body.len() == c - 1,
        forall|i: int| 0 <= i < body.len() ==> body[i] != 0,
    ensures
        cobs_decoding(seq![c] + body + seq![0u8]) == Some(body),
{
    let enc = seq![c] + body + seq![0u8];
    assert(enc[0] == c);
    assert(enc.len() == c + 1);
    let cc = c as int;
    assert(enc.subrange(1, cc) =~= body);
    assert(enc[cc] == 0);
}

/// Decoding inverts encoding: for every payload, the encoded frame
/// decodes back to the payload.
pub proof fn lemma_cobs_round_trip(data: Seq<u8>)
    ensures
        cobs_decoding(cobs_encoding(data)) == Some(data),
    decreases data.len(),
{
    lemma_group_len(data);
    let g = group_len(data);
    if g < 254 && g < data.len() {
        let rest = data.skip(g as int + 1);
        lemma_cobs_round_trip(rest);
        lemma_cobs_body_no_zeros(rest);
        let code = (g + 1) as u8;
        let body = data.take(g as int);
        let rest_enc = cobs_encoding(rest);
        assert(cobs_encoding(data) =~= seq![code] + body + rest_enc);
        assert(rest_enc[0] == cobs_body(rest)[0]);
        lemma_decode_middle_block(code, body, rest_enc);
        assert(body + seq![0u8] + rest =~= data);
    } else if data.len() > 254 {
        let rest = data.skip(254);
        lemma_cobs_round_trip(rest);
        lemma_cobs_body_no_zeros(rest);
        let body = data.take(254);
        let rest_enc = cobs_encoding(rest);
        assert(cobs_encoding(data) =~= seq![255u8] + body + rest_enc);
        assert(rest_enc[0] == cobs_body(rest)[0]);
        lemma_decode_middle_block(255u8, body, rest_enc);
        assert(body + rest =~= data);
    } else {
        let code = (data.len() + 1) as u8;
        assert(g == data.len());
        assert(cobs_encoding(data) =~= seq![code] + data + seq![0u8]);
        lemma_decode_final_block(code, data);
    }
}

/// COBS-encode a buffer; the result ends with the zero delimiter.
pub fn cobs_encode(data: &[u8]) -> (r: Vec<u8>)
    ensures
        r@ == cobs_encoding(data@),
{
    let mut out: Vec<u8> = Vec::new();
    let mut i: usize = 0;
    proof {
        assert(data@.skip(0) =~= data@);
        assert(Seq::<u8>::empty() + cobs_body(data@) =~= cobs_body(data@));
    }
    loop
        invariant_except_break
            i <= data@.len(),
            cobs_body(data@) == out@ + cobs_body(data@.skip(i as int)),
        ensures
            cobs_body(data@) == out@,
        decreases data@.len() - i,
    {
        let ghost s = data@.skip(i as int);
        // scan the zero-free run starting at i, capped at 254 bytes
        let mut j: usize = i;
        while j < data.len() && j - i < 254 && data[j] != 0
            invariant
                i <= j <= data@.len(),
                j - i <= 254,
                forall|t: int| i <= t < j ==> data@[t] != 0,
            decreases data@.len() - j,
        {
            j = j + 1;
        }
        let g: usize = j - i;
        proof {
            lemma_group_len(s);
            assert forall|t: int| 0 <= t < g implies s[t] != 0 by {
                assert(s[t] == data@[i + t]);
            }
            lemma_group_len_at_least(s, g as int);
            if j < data@.len() && g < 254 {
                // the scan stopped at a zero byte
                assert(s[g as int] == data@[j as int]);
                lemma_group_len_at_most(s, g as int);
            }
            if j == data@.len() {
                assert(s.len() == g);
            }
        }
        let code: u8 = (g + 1) as u8;
        let ghost out_before = out@;
        out.push(code);
        let mut k: usize = i;
        while k < j
            invariant
                i <= k <= j <= data@.len(),
                out@ == out_before + seq![code] + data@.subrange(i as int, k as int),
            decreases j - k,
        {
            let b: u8 = data[k];
            out.push(b);
            k = k + 1;
            assert(out@ =~= out_before + seq![code] + data@.subrange(i as int, k as int));
        }
        proof {
            assert(s.take(g as int) =~= data@.subrange(i as int, j as int));
        }
        if j == data.len() {
            proof {
                if g == 254 {
                    assert(group_len(s) == 254);
                    assert(cobs_body(s) == seq![255u8] + s);
                } else {
                    assert(group_len(s) == g);
                    assert(cobs_body(s) == seq![(g + 1) as u8] + s);
                }
                assert(s =~= data@.subrange(i as int, j as int));
                assert(out@ =~= out_before + cobs_body(s));
                assert(cobs_body(data@) =~= out@);
            }
            break;
        } else if g < 254 {
            // the run ended at a zero byte, which this block absorbs
            proof {
                assert(group_len(s) == g);
                assert(cobs_body(s) == seq![(g + 1) as u8] + s.take(g as int) + cobs_body(
                    s.skip(g as int + 1),
                ));
                assert(s.skip(g as int + 1) =~= data@.skip(j + 1));
                assert(cobs_body(data@) =~= out@ + cobs_body(data@.skip(j + 1)));
            }
            i = j + 1;
        } else {
            // a maximal block with more input to follow
            proof {
                assert(group_len(s) >= 254);
                assert(s.len() > 254);
                assert(cobs_body(s) == seq![255u8] + s.take(254) + cobs_body(s.skip(254)));
                assert(s.skip(254) =~= data@.skip(j as int));
                assert(cobs_body(data@) =~= out@ + cobs_body(data@.skip(j as int)));
            }
            i = j;
        }
    }
    out.push(0);
    proof {
        assert(out@ =~= cobs_encoding(data@));
    }
    out
}

/// COBS-decode a buffer that includes the trailing zero delimiter.
///
/// Fails exactly where the input is not a well-formed encoding.
pub fn cobs_decode(encoded: &[u8]) -> (r: Result<Vec<u8>, ()>)
    ensures
        match r {
            Ok(d) => cobs_decoding(encoded@) == Some(d@),
            Err(()) => cobs_decoding(encoded@) is None,
        },
{
    if encoded.len() == 0 {
        return Err(());
    }
    let mut out: Vec<u8> = Vec::new();
    let mut i: usize = 0;
    proof {
        assert(encoded@.skip(0) =~= encoded@);
        if cobs_decoding(encoded@) is Some {
            assert(Seq::<u8>::empty() + cobs_decoding(encoded@).unwrap() =~= cobs_decoding(
                encoded@,
            ).unwrap());
        }
    }
    loop
        invariant
            i < encoded@.len(),
            match cobs_decoding(encoded@.skip(i as int)) {
                Some(tail) => cobs_decoding(encoded@) == Some(out@ + tail),
                None => cobs_decoding(encoded@) is None,
            },
        decreases encoded@.len() - i,
    {
        let ghost s = encoded@.skip(i as int);
        let c: u8 = encoded[i];
        assert(s[0] == c);
        if c == 0 {
            if i + 1 == encoded.len() {
                proof {
                    assert(s.len() == 1);
                    assert(cobs_decoding(s) == Some(Seq::<u8>::empty()));
                    assert(out@ + Seq::<u8>::empty() =~= out@);
                }
                return Ok(out);
            } else {
                proof {
                    assert(s.len() > 1);
                }
                return Err(());
            }
        }
        let cu: usize = c as usize;
        let n: usize = encoded.len();
        if n - i < cu + 1 {
            proof {
                assert(s.len() < c + 1);
            }
            return Err(());
        }
        // copy the block body, refusing interior zeros
        let ghost body = s.subrange(1, c as int);
        let ghost out_before = out@;
        let mut k: usize = 1;
        proof {
            assert(out@ =~= out_before + body.take(0));
        }
        while k < cu
            invariant
                1 <= k <= cu,
                cu == c,
                1 <= c,
                n == encoded@.len(),
                i < n,
                i + cu < n,
                s == encoded@.skip(i as int),
                s[0] == c,
                body == s.subrange(1, c as int),
                match cobs_decoding(encoded@.skip(i as int)) {
                    Some(tail) => cobs_decoding(encoded@) == Some(out_before + tail),
                    None => cobs_decoding(encoded@) is None,
                },
                out@ == out_before + body.take(k - 1),
                forall|t: int| 0 <= t < k - 1 ==> body[t] != 0,
            decreases cu - k,
        {
            let b: u8 = encoded[i + k];
            assert(body[k - 1] == s[k as int]);
            assert(s[k as int] == encoded@[i + k]);
            if b == 0 {
                proof {
                    assert(s.len() == n - i);
                    assert(s.len() >= c + 1);
                    assert(body.len() == c - 1);
                    assert(0 <= k - 1 < body.len() && body[k - 1] == 0);
                    assert(s.subrange(1, s[0] as int) == body);
                    assert(s.subrange(1, s[0] as int)[k - 1] == 0);
                    assert(exists|t: int|
                        0 <= t < s.subrange(1, s[0] as int).len() && s.subrange(
                            1,
                            s[0] as int,
                        )[t] == 0);
                    assert(cobs_decoding(s) is None);
                }
                return Err(());
            }
            out.push(b);
            k = k + 1;
            assert(out@ =~= out_before + body.take(k - 1));
        }
        proof {
            assert(body.take(c - 1) =~= body);
            assert(forall|t: int| 0 <= t < body.len() ==> body[t] != 0);
        }
        let nxt: u8 = encoded[i + cu];
        assert(nxt == s[c as int]);
        if nxt == 0 {
            if i + cu + 1 == encoded.len() {
                proof {
                    assert(s.len() == c + 1);
                    assert(cobs_decoding(s) == Some(body));
                    assert(out@ =~= out_before + body);
                }
                return Ok(out);
            } else {
                proof {
                    assert(s.len() > c + 1);
                    assert(cobs_decoding(s) is None);
                }
                return Err(());
            }
        }
        if c < 255 {
            out.push(0);
        }
        proof {
            assert(s.skip(c as int) =~= encoded@.skip(i + cu));
            if cobs_decoding(encoded@.skip(i + cu)) is Some {
                let tail = cobs_decoding(encoded@.skip(i + cu)).unwrap();
                if c < 255 {
                    assert(cobs_decoding(s) == Some(body + seq![0u8] + tail));
                    assert(out@ + tail =~= out_before + (body + seq![0u8] + tail));
                } else {
                    assert(cobs_decoding(s) == Some(body + tail));
                    assert(out@ + tail =~= out_before + (body + tail));
                }
            } else {
                assert(cobs_decoding(s) is None);
            }
        }
        i = i + cu;
    }
}

} // verus!
