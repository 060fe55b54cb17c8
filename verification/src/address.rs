//! Account addresses: the textual grammar `workchain:account` — a signed
//! decimal workchain and 64 hexadecimal digits — parsed by a verified parser.

use vstd::prelude::*;
use vstd::string::StringSliceAdditionalSpecFns;

use crate::hexcodec::{
    hex_bytes, hex_digit_value, hex_val, is_dec_digit, is_dec_digit_byte, is_hex_digit,
    is_hex_digit_byte,
};

verus! {

/// On-chain account address: a signed workchain and a 256-bit account id.
#[derive(Debug, Clone, PartialEq, Eq)]
pub struct Address {
    pub workchain: i32,
    pub account: Vec<u8>,
}

impl Address {
    /// Well-formedness: the account id is exactly 32 bytes.
    pub open spec fn wf(&self) -> bool {
        self.account@.len() == 32
    }
}

/// The numeric value of a string of decimal digit bytes.
pub open spec fn dec_value(s: Seq<u8>) -> int
    decreases s.len(),
{
    if s.len() == 0 {
        0
    } else {
        dec_value(s.drop_last()) * 10 + (s.last() - 0x30)
    }
}

/// Whether the workchain part carries a minus sign.
pub open spec fn wc_negative(s: Seq<u8>) -> bool {
    s.len() > 0 && s[0] == 0x2d
}

/// The digit bytes of the workchain part: everything after an optional minus
/// sign.
pub open spec fn wc_digits(s: Seq<u8>) -> Seq<u8> {
    if wc_negative(s) {
        s.skip(1)
    } else {
        s
    }
}

/// The signed value the workchain part denotes.
pub open spec fn workchain_value(s: Seq<u8>) -> int {
    if wc_negative(s) {
        -dec_value(wc_digits(s))
    } else {
        dec_value(wc_digits(s))
    }
}

/// A valid workchain part: an optional minus sign, then at least one decimal
/// digit, denoting a value that fits a 32-bit signed integer.
pub open spec fn valid_workchain(s: Seq<u8>) -> bool {
    &&& wc_digits(s).len() >= 1
    &&& (forall|i: int| 0 <= i < wc_digits(s).len() ==> is_dec_digit(#[trigger] wc_digits(s)[i]))
    &&& i32::MIN <= workchain_value(s) <= i32::MAX
}

/// A valid account part: exactly 64 hexadecimal digits.
pub open spec fn valid_account_hex(s: Seq<u8>) -> bool {
    &&& s.len() == 64
    &&& (forall|i: int| 0 <= i < s.len() ==> is_hex_digit(#[trigger] s[i]))
}

/// The grammar of address text: a valid workchain part, one colon, and a
/// valid account part.
pub open spec fn valid_address_text(s: Seq<u8>) -> bool {
    &&& s.len() >= 66
    &&& s[s.len() - 65] == 0x3a
    &&& valid_workchain(s.take(s.len() - 65))
    &&& valid_account_hex(s.skip(s.len() - 64))
}

/// Parses address text. Succeeds exactly on well-formed `workchain:account`
/// text and returns the denoted workchain and the 32 decoded account bytes.
pub fn parse_address(s: &str) -> (r: Option<Address>)
    ensures
        r is Some <==> valid_address_text(s.spec_bytes()),
        r matches Some(a) ==> ({
            let t = s.spec_bytes();
            &&& a.wf()
            &&& a.workchain == workchain_value(t.take(t.len() - 65))
            &&& a.account@ == hex_bytes(t.skip(t.len() - 64))
        }),
{
    let b = s.as_bytes();
    let n = b.len();
    let ghost text = s.spec_bytes();
    if n < 66 {
        return None;
    }
    let cpos = n - 65;
    if b[cpos] != 0x3a {
        return None;
    }
    let neg = b[0] == 0x2d;
    let start: usize = if neg {
        1
    } else {
        0
    };
    proof {
        assert(wc_negative(text.take(cpos as int)) == neg);
    }
    if start >= cpos {
        // a lone minus sign: the workchain part has no digits
        proof {
            assert(wc_digits(text.take(cpos as int)) =~= text.take(cpos as int).skip(1));
        }
        return None;
    }
    // The largest magnitude a workchain may have: one past i32::MAX, so that
    // the minimum of i32 is still representable when negated.
    let bound: i64 = 2147483648;
    let mut acc: i64 = 0;
    let mut i: usize = start;
    while i < cpos
        invariant
            start <= i <= cpos,
            66 <= n,
            cpos + 65 == n,
            n == text.len(),
            b@ == text,
            text == s.spec_bytes(),
            neg == (text[0] == 0x2d),
            start == (if neg {
                1int
            } else {
                0int
            }),
            start < cpos,
            forall|j: int| start <= j < i ==> is_dec_digit(#[trigger] text[j]),
            0 <= acc <= bound + 1,
            bound == 2147483648,
            ({
                let dv = dec_value(text.subrange(start as int, i as int));
                (acc == dv && dv <= bound) || (acc == bound + 1 && dv > bound)
            }),
        decreases cpos - i,
    {
        let c = b[i];
        if !is_dec_digit_byte(c) {
            proof {
                let w = text.take(cpos as int);
                assert(w[0] == text[0]);
                assert(wc_negative(w) == neg);
                if neg {
                    assert(wc_digits(w) =~= text.subrange(1, cpos as int));
                } else {
                    assert(wc_digits(w) =~= text.subrange(0, cpos as int));
                }
                assert(wc_digits(w)[i - start] == text[i as int]);
            }
            return None;
        }
        proof {
            assert(text.subrange(start as int, i + 1).drop_last() =~= text.subrange(
                start as int,
                i as int,
            ));
            assert(text.subrange(start as int, i + 1).last() == text[i as int]);
        }
        let d = (c - 0x30) as i64;
        let next = acc * 10 + d;
        if next > bound {
            acc = bound + 1;
        } else {
            acc = next;
        }
        i += 1;
    }
    proof {
        assert(text.subrange(start as int, cpos as int) =~= wc_digits(text.take(cpos as int)));
    }
    let wc: i32;
    if neg {
        if acc > bound {
            return None;
        }
        wc = (-acc) as i32;
    } else {
        if acc >= bound {
            return None;
        }
        wc = acc as i32;
    }
    let mut account: Vec<u8> = Vec::new();
    let mut j: usize = 0;
    while j < 32
        invariant
            j <= 32,
            cpos + 65 == n,
            n == text.len(),
            b@ == text,
            text == s.spec_bytes(),
            account@.len() == j,
            forall|k: int|
                0 <= k < j ==> account@[k] == (hex_val(text[cpos + 1 + 2 * k]) * 16 + hex_val(
                    text[cpos + 2 + 2 * k],
                )) as u8,
            forall|k: int| 0 <= k < 2 * j ==> is_hex_digit(#[trigger] text[cpos + 1 + k]),
        decreases 32 - j,
    {
        let h = b[cpos + 1 + 2 * j];
        let l = b[cpos + 2 + 2 * j];
        if !is_hex_digit_byte(h) || !is_hex_digit_byte(l) {
            proof {
                let acct = text.skip(cpos + 1);
                if !is_hex_digit(text[cpos + 1 + 2 * (j as int)]) {
                    assert(acct[2 * (j as int)] == text[cpos + 1 + 2 * (j as int)]);
                } else {
                    assert(acct[2 * (j as int) + 1] == text[cpos + 2 + 2 * (j as int)]);
                }
            }
            return None;
        }
        account.push(hex_digit_value(h) * 16 + hex_digit_value(l));
        j += 1;
    }
    let a = Address { workchain: wc, account };
    proof {
        let acct = text.skip(cpos + 1);
        assert forall|k: int| 0 <= k < 64 implies is_hex_digit(#[trigger] acct[k]) by {
            assert(acct[k] == text[cpos + 1 + k]);
        }
        assert(a.account@ =~= hex_bytes(acct)) by {
            assert forall|k: int| 0 <= k < 32 implies a.account@[k] == hex_bytes(acct)[k] by {
                assert(acct[2 * k] == text[cpos + 1 + 2 * k]);
                assert(acct[2 * k + 1] == text[cpos + 2 + 2 * k]);
            }
        }
        assert(valid_address_text(text));
    }
    Some(a)
}

} // verus!
