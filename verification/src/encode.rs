//! Base64 with padding, and the escape sequence that carries an image to a
//! terminal that speaks the Kitty graphics protocol.

use vstd::prelude::*;
use crate::text::owned;

verus! {

/// The sixty-four digits of base64, in the order of their values.
pub open spec fn alphabet() -> Seq<char> {
    "ABCDEFGHIJKLMNOPQRSTUVWXYZabcdefghijklmnopqrstuvwxyz0123456789+/"@
}

/// The digit that stands for a six-bit value.
pub open spec fn digit(value: int) -> char {
    alphabet()[value]
}

/// The byte at place `i`, or zero past the end.
pub open spec fn byte_or_zero(data: Seq<u8>, i: int) -> int {
    if i < data.len() {
        data[i] as int
    } else {
        0
    }
}

/// The four characters for the first group of `data`: its first three
/// bytes cut into four six-bit values, with `=` in place of the values
/// that hold no bit of the data.
pub open spec fn first_group(data: Seq<u8>) -> Seq<char> {
    let b0 = byte_or_zero(data, 0);
    let b1 = byte_or_zero(data, 1);
    let b2 = byte_or_zero(data, 2);
    seq![
        digit(b0 / 4),
        digit((b0 % 4) * 16 + b1 / 16),
        if data.len() > 1 {
            digit((b1 % 16) * 4 + b2 / 64)
        } else {
            '='
        },
        if data.len() > 2 {
            digit(b2 % 64)
        } else {
            '='
        },
    ]
}

/// The base64 text of a sequence of bytes.
pub open spec fn base64(data: Seq<u8>) -> Seq<char>
    decreases data.len(),
{
    if data.len() == 0 {
        Seq::empty()
    } else if data.len() <= 3 {
        first_group(data)
    } else {
        first_group(data) + base64(data.skip(3))
    }
}

/// Every three bytes, and what is left of fewer, give four characters.
pub proof fn lemma_base64_len(data: Seq<u8>)
    ensures
        base64(data).len() == 4 * ((data.len() + 2) / 3),
    decreases data.len(),
{
    if data.len() > 3 {
        lemma_base64_len(data.skip(3));
    }
}

/// Encodes `data` in base64.
pub fn base64_encode(data: &[u8]) -> (out: String)
    ensures
        out@ == base64(data@),
{
    let digits = "ABCDEFGHIJKLMNOPQRSTUVWXYZabcdefghijklmnopqrstuvwxyz0123456789+/";
    proof {
        reveal_strlit("ABCDEFGHIJKLMNOPQRSTUVWXYZabcdefghijklmnopqrstuvwxyz0123456789+/");
    }
    let mut result = String::new();
    let mut i: usize = 0;
    proof {
        assert(data@.skip(0) =~= data@);
        assert(result@ + base64(data@) =~= base64(data@));
    }
    while i < data.len()
        invariant
            i <= data@.len(),
            digits@ == alphabet(),
            digits@.len() == 64,
            result@ + base64(data@.skip(i as int)) == base64(data@),
        decreases data@.len() - i,
    {
        let left: usize = data.len() - i;
        let b0: u8 = data[i];
        let b1: u8 = if left > 1 {
            data[i + 1]
        } else {
            0
        };
        let b2: u8 = if left > 2 {
            data[i + 2]
        } else {
            0
        };
        let v1: u8 = (b0 >> 2) & 0x3F;
        let v2: u8 = ((b0 & 0x03) << 4) | ((b1 >> 4) & 0x0F);
        let v3: u8 = ((b1 & 0x0F) << 2) | ((b2 >> 6) & 0x03);
        let v4: u8 = b2 & 0x3F;
        proof {
            assert(v1 == b0 / 4 && v1 < 64) by (bit_vector)
                requires
                    v1 == (b0 >> 2) & 0x3F,
            ;
            assert(v2 == (b0 % 4) * 16 + b1 / 16 && v2 < 64) by (bit_vector)
                requires
                    v2 == ((b0 & 0x03) << 4) | ((b1 >> 4) & 0x0F),
            ;
            assert(v3 == (b1 % 16) * 4 + b2 / 64 && v3 < 64) by (bit_vector)
                requires
                    v3 == ((b1 & 0x0F) << 2) | ((b2 >> 6) & 0x03),
            ;
            assert(v4 == b2 % 64 && v4 < 64) by (bit_vector)
                requires
                    v4 == b2 & 0x3F,
            ;
        }
        let ghost before = result@;
        let ghost rest = data@.skip(i as int);
        result.push(digits.get_char(v1 as usize));
        result.push(digits.get_char(v2 as usize));
        if left > 1 {
            result.push(digits.get_char(v3 as usize));
        } else {
            result.push('=');
        }
        if left > 2 {
            result.push(digits.get_char(v4 as usize));
        } else {
            result.push('=');
        }
        proof {
            assert(byte_or_zero(rest, 0) == b0);
            assert(byte_or_zero(rest, 1) == b1);
            assert(byte_or_zero(rest, 2) == b2);
            assert(result@ =~= before + first_group(rest));
        }
        if left > 3 {
            proof {
                assert(rest.skip(3) =~= data@.skip(i + 3));
                assert(result@ + base64(data@.skip(i + 3)) =~= before + base64(rest));
            }
            i = i + 3;
        } else {
            proof {
                assert(data@.skip(data@.len() as int) =~= Seq::<u8>::empty());
                assert(result@ + base64(data@.skip(data@.len() as int)) =~= before + base64(rest));
            }
            i = data.len();
        }
    }
    proof {
        assert(data@.skip(i as int) =~= Seq::<u8>::empty());
        assert(result@ + Seq::<char>::empty() =~= result@);
    }
    result
}

/// The escape sequence that shows an image: the protocol's header, the
/// image's bytes in base64, and the terminator.
pub open spec fn kitty_sequence(image: Seq<u8>) -> Seq<char> {
    "\x1b_Gf=100,a=T,t=f;"@ + base64(image) + "\x1b\\"@
}

/// The text to write to the terminal to show `image`.
pub fn kitty_escape(image: &[u8]) -> (out: String)
    ensures
        out@ == kitty_sequence(image@),
{
    let mut out = owned("\x1b_Gf=100,a=T,t=f;");
    out.append(base64_encode(image).as_str());
    out.append("\x1b\\");
    out
}

} // verus!
