//! Text-encoding validation for raw fuzz buffers, proved against the
//! UTF-8 model in `vstd::utf8`.

use vstd::prelude::*;
use vstd::utf8::*;

verus! {

/// Decides whether the given bytes form a valid UTF-8 encoding.
///
/// The result agrees exactly with `vstd::utf8::valid_utf8`: the buffer is
/// scanned one encoded scalar at a time, rejecting malformed leading or
/// continuation bytes, truncated sequences, overlong encodings, surrogate
/// codepoints, and values beyond the Unicode range.
pub fn is_valid_utf8_bytes(data: &Vec<u8>) -> (r: bool)
    ensures
        r == valid_utf8(data@),
{
    let n: usize = data.len();
    let mut i: usize = 0;
    proof {
        assert(data@.skip(0) =~= data@);
    }
    while i < n
        invariant
            i <= n,
            n == data@.len(),
            valid_utf8(data@) == valid_utf8(data@.skip(i as int)),
        decreases n - i,
    {
        let ghost suffix = data@.skip(i as int);
        let b0 = data[i];
        proof {
            assert(suffix.len() == n - i);
            assert(suffix[0] == b0);
        }
        if b0 <= 0x7f {
            proof {
                assert(valid_first_scalar(suffix));
                assert(pop_first_scalar(suffix) =~= data@.skip(i as int + 1));
            }
            i = i + 1;
        } else if 0xc0 <= b0 && b0 <= 0xdf {
            if n - i < 2 {
                proof {
                    assert(!valid_leading_and_continuation_bytes_first_codepoint(suffix));
                }
                return false;
            }
            let b1 = data[i + 1];
            proof {
                assert(suffix[1] == b1);
            }
            if !(0x80 <= b1 && b1 <= 0xbf) {
                proof {
                    assert(!valid_leading_and_continuation_bytes_first_codepoint(suffix));
                }
                return false;
            }
            let cp: u32 = (((b0 & 0x1f) as u32) << 6u32) | ((b1 & 0x3f) as u32);
            proof {
                assert(cp == codepoint_width_2(b0, b1));
                assert(decode_first_codepoint(suffix) == cp);
                assert(length_of_first_codepoint(suffix) == 2);
            }
            if cp < 0x80 {
                proof {
                    assert(!valid_first_scalar(suffix));
                }
                return false;
            }
            proof {
                assert(cp <= 0x7ff) by (bit_vector)
                    requires
                        cp == (((b0 & 0x1f) as u32) << 6u32) | ((b1 & 0x3f) as u32),
                ;
                assert(valid_first_scalar(suffix));
                assert(pop_first_scalar(suffix) =~= data@.skip(i as int + 2));
            }
            i = i + 2;
        } else if 0xe0 <= b0 && b0 <= 0xef {
            if n - i < 3 {
                proof {
                    assert(!valid_leading_and_continuation_bytes_first_codepoint(suffix));
                }
                return false;
            }
            let b1 = data[i + 1];
            let b2 = data[i + 2];
            proof {
                assert(suffix[1] == b1);
                assert(suffix[2] == b2);
            }
            if !(0x80 <= b1 && b1 <= 0xbf) || !(0x80 <= b2 && b2 <= 0xbf) {
                proof {
                    assert(!valid_leading_and_continuation_bytes_first_codepoint(suffix));
                }
                return false;
            }
            let cp: u32 = (((b0 & 0x0f) as u32) << 12u32) | (((b1 & 0x3f) as u32) << 6u32) | ((
            b2 & 0x3f) as u32);
            proof {
                assert(cp == codepoint_width_3(b0, b1, b2));
                assert(decode_first_codepoint(suffix) == cp);
                assert(length_of_first_codepoint(suffix) == 3);
            }
            if cp < 0x800 {
                proof {
                    assert(!valid_first_scalar(suffix));
                }
                return false;
            }
            if 0xd800 <= cp && cp <= 0xdfff {
                proof {
                    assert(!valid_first_scalar(suffix));
                }
                return false;
            }
            proof {
                assert(valid_first_scalar(suffix));
                assert(pop_first_scalar(suffix) =~= data@.skip(i as int + 3));
            }
            i = i + 3;
        } else if 0xf0 <= b0 && b0 <= 0xf7 {
            if n - i < 4 {
                proof {
                    assert(!valid_leading_and_continuation_bytes_first_codepoint(suffix));
                }
                return false;
            }
            let b1 = data[i + 1];
            let b2 = data[i + 2];
            let b3 = data[i + 3];
            proof {
                assert(suffix[1] == b1);
                assert(suffix[2] == b2);
                assert(suffix[3] == b3);
            }
            if !(0x80 <= b1 && b1 <= 0xbf) || !(0x80 <= b2 && b2 <= 0xbf) || !(0x80 <= b3 && b3
                <= 0xbf) {
                proof {
                    assert(!valid_leading_and_continuation_bytes_first_codepoint(suffix));
                }
                return false;
            }
            let cp: u32 = (((b0 & 0x07) as u32) << 18u32) | (((b1 & 0x3f) as u32) << 12u32) | (((
            b2 & 0x3f) as u32) << 6u32) | ((b3 & 0x3f) as u32);
            proof {
                assert(cp == codepoint_width_4(b0, b1, b2, b3));
                assert(decode_first_codepoint(suffix) == cp);
                assert(length_of_first_codepoint(suffix) == 4);
            }
            if cp < 0x10000 || cp > 0x10ffff {
                proof {
                    assert(!valid_first_scalar(suffix));
                }
                return false;
            }
            proof {
                assert(valid_first_scalar(suffix));
                assert(pop_first_scalar(suffix) =~= data@.skip(i as int + 4));
            }
            i = i + 4;
        } else {
            proof {
                assert(!valid_leading_and_continuation_bytes_first_codepoint(suffix));
            }
            return false;
        }
    }
    proof {
        assert(data@.skip(n as int) =~= Seq::<u8>::empty());
    }
    true
}

} // verus!
