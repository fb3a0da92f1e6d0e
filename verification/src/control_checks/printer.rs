//! The printer-class validator: GET_DEVICE_ID replies carry a big-endian
//! length prefix and an IEEE 1284 device-id string, which must be valid
//! UTF-8 and name a manufacturer, a model, and a command set drawn from a
//! closed allow-list.

use vstd::prelude::*;
use crate::bytes::read_u16_le;
use crate::parser::Source;
use crate::usb::printer;
use crate::usbr::ControlPacketHeader;

verus! {

/// Whether `b` continues a multi-byte UTF-8 sequence.
pub open spec fn utf8_cont(b: u8) -> bool {
    0x80 <= b <= 0xbf
}

/// Whether the bytes from `off` on are well-formed UTF-8.
pub open spec fn utf8_ok_from(d: Seq<u8>, off: int) -> bool
    decreases d.len() - off when off <= d.len()
{
    if off >= d.len() {
        true
    } else {
        let b0 = d[off];
        if b0 < 0x80 {
            utf8_ok_from(d, off + 1)
        } else if 0xc2 <= b0 <= 0xdf {
            off + 2 <= d.len() && utf8_cont(d[off + 1]) && utf8_ok_from(d, off + 2)
        } else if b0 == 0xe0 {
            off + 3 <= d.len() && 0xa0 <= d[off + 1] <= 0xbf && utf8_cont(d[off + 2])
                && utf8_ok_from(d, off + 3)
        } else if 0xe1 <= b0 <= 0xec || b0 == 0xee || b0 == 0xef {
            off + 3 <= d.len() && utf8_cont(d[off + 1]) && utf8_cont(d[off + 2]) && utf8_ok_from(
                d,
                off + 3,
            )
        } else if b0 == 0xed {
            off + 3 <= d.len() && 0x80 <= d[off + 1] <= 0x9f && utf8_cont(d[off + 2])
                && utf8_ok_from(d, off + 3)
        } else if b0 == 0xf0 {
            off + 4 <= d.len() && 0x90 <= d[off + 1] <= 0xbf && utf8_cont(d[off + 2]) && utf8_cont(
                d[off + 3],
            ) && utf8_ok_from(d, off + 4)
        } else if 0xf1 <= b0 <= 0xf3 {
            off + 4 <= d.len() && utf8_cont(d[off + 1]) && utf8_cont(d[off + 2]) && utf8_cont(
                d[off + 3],
            ) && utf8_ok_from(d, off + 4)
        } else if b0 == 0xf4 {
            off + 4 <= d.len() && 0x80 <= d[off + 1] <= 0x8f && utf8_cont(d[off + 2]) && utf8_cont(
                d[off + 3],
            ) && utf8_ok_from(d, off + 4)
        } else {
            false
        }
    }
}

/// Whether the whole byte sequence is well-formed UTF-8.
#[verifier::loop_isolation(false)]
pub fn is_valid_utf8(data: &[u8]) -> (r: bool)
    ensures
        r == utf8_ok_from(data@, 0),
{
    let n = data.len();
    let mut off: usize = 0;
    while off < n
        invariant
            off <= n,
            n == data@.len(),
            utf8_ok_from(data@, 0) == utf8_ok_from(data@, off as int),
        decreases n - off,
    {
        let b0 = data[off];
        if b0 < 0x80 {
            off = off + 1;
        } else if 0xc2 <= b0 && b0 <= 0xdf {
            if !(n - off >= 2 && 0x80 <= data[off + 1] && data[off + 1] <= 0xbf) {
                return false;
            }
            off = off + 2;
        } else if b0 == 0xe0 {
            if !(n - off >= 3 && 0xa0 <= data[off + 1] && data[off + 1] <= 0xbf && 0x80 <= data[off
                + 2] && data[off + 2] <= 0xbf) {
                return false;
            }
            off = off + 3;
        } else if (0xe1 <= b0 && b0 <= 0xec) || b0 == 0xee || b0 == 0xef {
            if !(n - off >= 3 && 0x80 <= data[off + 1] && data[off + 1] <= 0xbf && 0x80 <= data[off
                + 2] && data[off + 2] <= 0xbf) {
                return false;
            }
            off = off + 3;
        } else if b0 == 0xed {
            if !(n - off >= 3 && 0x80 <= data[off + 1] && data[off + 1] <= 0x9f && 0x80 <= data[off
                + 2] && data[off + 2] <= 0xbf) {
                return false;
            }
            off = off + 3;
        } else if b0 == 0xf0 {
            if !(n - off >= 4 && 0x90 <= data[off + 1] && data[off + 1] <= 0xbf && 0x80 <= data[off
                + 2] && data[off + 2] <= 0xbf && 0x80 <= data[off + 3] && data[off + 3] <= 0xbf) {
                return false;
            }
            off = off + 4;
        } else if 0xf1 <= b0 && b0 <= 0xf3 {
            if !(n - off >= 4 && 0x80 <= data[off + 1] && data[off + 1] <= 0xbf && 0x80 <= data[off
                + 2] && data[off + 2] <= 0xbf && 0x80 <= data[off + 3] && data[off + 3] <= 0xbf) {
                return false;
            }
            off = off + 4;
        } else if b0 == 0xf4 {
            if !(n - off >= 4 && 0x80 <= data[off + 1] && data[off + 1] <= 0x8f && 0x80 <= data[off
                + 2] && data[off + 2] <= 0xbf && 0x80 <= data[off + 3] && data[off + 3] <= 0xbf) {
                return false;
            }
            off = off + 4;
        } else {
            return false;
        }
    }
    true
}

/// Whether `b` is ASCII whitespace, for trimming the device-id string.
pub open spec fn is_ws(b: u8) -> bool {
    b == 0x20 || (0x09 <= b <= 0x0d)
}

/// First non-whitespace position at or after `i`.
pub open spec fn trim_start(d: Seq<u8>, i: int) -> int
    decreases d.len() - i when i <= d.len()
{
    if 0 <= i < d.len() && is_ws(d[i]) {
        trim_start(d, i + 1)
    } else {
        i
    }
}

/// Position after the last non-whitespace byte before `i`.
pub open spec fn trim_end(d: Seq<u8>, i: int) -> int
    decreases i,
{
    if 0 < i <= d.len() && is_ws(d[i - 1]) {
        trim_end(d, i - 1)
    } else {
        i
    }
}

/// First position of `b` in `d[off..end]`, or `end` when absent.
pub open spec fn find_in(d: Seq<u8>, off: int, end: int, b: u8) -> int
    decreases end - off when off <= end
{
    if off >= end {
        end
    } else if d[off] == b {
        off
    } else {
        find_in(d, off + 1, end, b)
    }
}

/// Find `b` in `data[off..end]`, returning `end` when absent.
#[verifier::loop_isolation(false)]
pub fn find_byte(data: &[u8], off: usize, end: usize, b: u8) -> (r: usize)
    requires
        off <= end,
        end <= data@.len(),
    ensures
        r == find_in(data@, off as int, end as int, b),
        off <= r <= end,
        r < end ==> data@[r as int] == b,
{
    let mut i: usize = off;
    while i < end
        invariant
            off <= i <= end,
            end <= data@.len(),
            find_in(data@, off as int, end as int, b) == find_in(data@, i as int, end as int, b),
            forall|j: int| off <= j < i ==> data@[j] != b,
        decreases end - i,
    {
        if data[i] == b {
            return i;
        }
        i = i + 1;
    }
    end
}

/// Whether `needle` occurs as a contiguous run inside `d[a..b]`.
pub open spec fn contains_in(d: Seq<u8>, a: int, b: int, needle: Seq<u8>) -> bool {
    exists|i: int|
        a <= i && i + needle.len() <= b && #[trigger] d.subrange(i, i + needle.len() as int)
            == needle
}

/// Search for `needle` inside `data[a..b]`.
#[verifier::loop_isolation(false)]
pub fn contains_bytes(data: &[u8], a: usize, b: usize, needle: &[u8]) -> (r: bool)
    requires
        a <= b,
        b <= data@.len(),
    ensures
        r == contains_in(data@, a as int, b as int, needle@),
{
    let nl = needle.len();
    if nl > b - a {
        proof {
            assert(!contains_in(data@, a as int, b as int, needle@));
        }
        return false;
    }
    let last = b - nl;
    let mut i: usize = a;
    while i <= last
        invariant
            a <= i,
            i <= last + 1,
            last == b - nl,
            a <= b,
            nl == needle@.len(),
            b <= data@.len(),
            forall|k: int|
                a <= k < i ==> #[trigger] data@.subrange(k, k + needle@.len() as int) != needle@,
        decreases last + 1 - i,
    {
        let mut j: usize = 0;
        let mut matches = true;
        while j < nl
            invariant
                i + nl <= b,
                b <= data@.len(),
                nl == needle@.len(),
                j <= nl,
                matches == (forall|t: int| 0 <= t < j ==> data@[i + t] == needle@[t]),
            decreases nl - j,
        {
            if data[i + j] != needle[j] {
                matches = false;
                proof {
                    assert(data@.subrange(i as int, i + nl as int)[j as int] != needle@[j as int]);
                }
                j = nl;
            } else {
                j = j + 1;
            }
        }
        if matches {
            proof {
                assert(data@.subrange(i as int, i + nl as int) =~= needle@);
            }
            return true;
        }
        proof {
            let t = choose|t: int| 0 <= t < j && data@[i + t] != needle@[t];
            assert(data@.subrange(i as int, i + nl as int)[t] != needle@[t]);
        }
        i = i + 1;
    }
    false
}

/// The bytes of the key word `MANUFACTURER`.
pub open spec fn kw_manufacturer() -> Seq<u8> {
    seq![77u8, 65u8, 78u8, 85u8, 70u8, 65u8, 67u8, 84u8, 85u8, 82u8, 69u8, 82u8]
}

/// The bytes of the key word `MFG`.
pub open spec fn kw_mfg() -> Seq<u8> {
    seq![77u8, 70u8, 71u8]
}

/// The bytes of the key word `COMMAND SET`.
pub open spec fn kw_command_set() -> Seq<u8> {
    seq![67u8, 79u8, 77u8, 77u8, 65u8, 78u8, 68u8, 32u8, 83u8, 69u8, 84u8]
}

/// The bytes of the key word `CMD`.
pub open spec fn kw_cmd() -> Seq<u8> {
    seq![67u8, 77u8, 68u8]
}

/// The bytes of the key word `MODEL`.
pub open spec fn kw_model() -> Seq<u8> {
    seq![77u8, 79u8, 68u8, 69u8, 76u8]
}

/// The bytes of the key word `MDL`.
pub open spec fn kw_mdl() -> Seq<u8> {
    seq![77u8, 68u8, 76u8]
}


/// The closed allow-list of command-set tokens an IEEE 1284 `CMD` value
/// may name.
pub open spec fn cmd_token_ok(t: Seq<u8>) -> bool {
    ||| t == seq![49u8, 50u8, 56u8, 52u8, 46u8, 52u8]
    ||| t == seq![65u8, 67u8, 76u8]
    ||| t == seq![66u8, 68u8, 67u8]
    ||| t == seq![66u8, 73u8, 68u8, 73u8, 45u8, 69u8, 67u8, 80u8]
    ||| t == seq![66u8, 74u8]
    ||| t == seq![66u8, 74u8, 76u8]
    ||| t == seq![66u8, 74u8, 82u8, 97u8, 115u8, 116u8, 101u8, 114u8]
    ||| t == seq![66u8, 74u8, 82u8, 97u8, 115u8, 116u8, 101u8, 114u8, 51u8]
    ||| t == seq![66u8, 83u8, 67u8, 67u8]
    ||| t == seq![66u8, 74u8, 83u8, 99u8, 97u8, 110u8, 50u8]
    ||| t == seq![67u8, 51u8, 50u8]
    ||| t == seq![67u8, 76u8, 83u8]
    ||| t == seq![67u8, 80u8, 68u8, 78u8, 80u8, 65u8, 48u8, 48u8, 49u8]
    ||| t == seq![68u8, 52u8]
    ||| t == seq![68u8, 69u8, 83u8, 75u8, 74u8, 69u8, 84u8]
    ||| t == seq![68u8, 87u8, 45u8, 80u8, 67u8, 76u8]
    ||| t == seq![68u8, 89u8, 78u8]
    ||| t == seq![69u8, 67u8, 80u8, 49u8, 56u8]
    ||| t == seq![69u8, 74u8, 76u8]
    ||| t == seq![69u8, 80u8, 83u8, 79u8, 78u8]
    ||| t == seq![69u8, 80u8, 83u8, 79u8, 78u8, 70u8, 88u8]
    ||| t == seq![69u8, 83u8, 67u8, 80u8, 57u8, 45u8, 56u8, 52u8]
    ||| t == seq![69u8, 83u8, 67u8, 80u8, 65u8, 71u8, 69u8, 45u8, 48u8, 52u8]
    ||| t == seq![69u8, 83u8, 67u8, 80u8, 65u8, 71u8, 69u8, 83u8, 45u8, 48u8, 50u8]
    ||| t == seq![69u8, 83u8, 67u8, 80u8, 76u8, 50u8]
    ||| t == seq![69u8, 83u8, 67u8, 80u8, 76u8, 50u8, 45u8, 48u8, 48u8]
    ||| t == seq![69u8, 83u8, 67u8, 47u8, 80u8, 50u8]
    ||| t == seq![70u8, 97u8, 115u8, 116u8, 82u8, 97u8, 115u8, 116u8, 101u8, 114u8]
    ||| t == seq![72u8, 73u8, 80u8, 69u8, 82u8, 87u8, 73u8, 78u8, 68u8, 79u8, 87u8, 83u8]
    ||| t == seq![72u8, 80u8, 71u8, 76u8, 50u8, 45u8, 48u8, 49u8]
    ||| t == seq![72u8, 80u8, 69u8, 78u8, 72u8, 65u8, 78u8, 67u8, 69u8, 68u8, 80u8, 67u8, 76u8, 53u8]
    ||| t == seq![72u8, 80u8, 69u8, 78u8, 72u8, 65u8, 78u8, 67u8, 69u8, 68u8, 80u8, 67u8, 76u8, 53u8, 101u8]
    ||| t == seq![72u8, 80u8, 69u8, 78u8, 72u8, 65u8, 78u8, 67u8, 69u8, 68u8, 80u8, 67u8, 76u8, 54u8]
    ||| t == seq![72u8, 80u8, 71u8, 68u8, 73u8]
    ||| t == seq![73u8, 66u8, 77u8]
    ||| t == seq![73u8, 66u8, 77u8, 80u8, 80u8, 82u8]
    ||| t == seq![76u8, 65u8, 86u8, 65u8, 70u8, 76u8, 79u8, 87u8]
    ||| t == seq![76u8, 68u8, 76u8]
    ||| t == seq![76u8, 69u8, 88u8, 87u8, 80u8, 83u8]
    ||| t == seq![76u8, 78u8, 80u8, 65u8, 80u8]
    ||| t == seq![76u8, 79u8, 87u8, 69u8, 78u8, 68u8, 76u8, 69u8, 88u8, 67u8, 80u8, 68u8]
    ||| t == seq![108u8, 112u8, 116u8, 49u8]
    ||| t == seq![76u8, 81u8]
    ||| t == seq![77u8, 70u8, 80u8, 68u8, 84u8, 70u8, 49u8]
    ||| t == seq![77u8, 70u8, 80u8, 88u8, 68u8, 77u8, 65u8]
    ||| t == seq![77u8, 73u8, 67u8, 82u8, 79u8, 76u8, 73u8, 78u8, 69u8]
    ||| t == seq![77u8, 73u8, 77u8, 69u8]
    ||| t == seq![77u8, 76u8, 67u8]
    ||| t == seq![78u8, 65u8]
    ||| t == seq![110u8, 111u8, 110u8, 101u8]
    ||| t == seq![78u8, 80u8, 65u8, 80u8]
    ||| t == seq![77u8, 117u8, 108u8, 116u8, 105u8, 80u8, 97u8, 115u8, 115u8, 50u8, 46u8, 49u8]
    ||| t == seq![79u8, 65u8, 75u8, 82u8, 65u8, 83u8]
    ||| t == seq![79u8, 80u8, 69u8, 76u8]
    ||| t == seq![80u8, 67u8, 76u8]
    ||| t == seq![80u8, 67u8, 76u8, 51u8]
    ||| t == seq![80u8, 67u8, 76u8, 52u8]
    ||| t == seq![80u8, 67u8, 76u8, 53u8]
    ||| t == seq![80u8, 67u8, 76u8, 53u8, 67u8]
    ||| t == seq![80u8, 67u8, 76u8, 53u8, 101u8]
    ||| t == seq![80u8, 67u8, 76u8, 53u8, 69u8, 50u8]
    ||| t == seq![80u8, 67u8, 76u8, 54u8]
    ||| t == seq![80u8, 67u8, 76u8, 88u8, 76u8]
    ||| t == seq![80u8, 67u8, 76u8, 53u8, 69u8, 109u8, 117u8, 108u8, 97u8, 116u8, 105u8, 111u8, 110u8]
    ||| t == seq![80u8, 67u8, 76u8, 45u8, 88u8, 76u8]
    ||| t == seq![80u8, 68u8, 70u8]
    ||| t == seq![80u8, 74u8, 76u8]
    ||| t == seq![80u8, 77u8, 76u8]
    ||| t == seq![80u8, 79u8, 83u8, 84u8, 83u8, 67u8, 82u8, 73u8, 80u8, 84u8]
    ||| t == seq![80u8, 79u8, 83u8, 84u8, 83u8, 67u8, 82u8, 73u8, 80u8, 84u8, 50u8]
    ||| t == seq![80u8, 111u8, 115u8, 116u8, 83u8, 99u8, 114u8, 105u8, 112u8, 116u8, 76u8, 101u8, 118u8, 101u8, 108u8, 50u8, 69u8, 109u8, 117u8, 108u8, 97u8, 116u8, 105u8, 111u8, 110u8]
    ||| t == seq![80u8, 111u8, 115u8, 116u8, 83u8, 99u8, 114u8, 105u8, 112u8, 116u8, 76u8, 101u8, 118u8, 101u8, 108u8, 51u8, 70u8, 111u8, 114u8, 77u8, 97u8, 99u8, 69u8, 109u8, 117u8, 108u8, 97u8, 116u8, 105u8, 111u8, 110u8]
    ||| t == seq![80u8, 114u8, 105u8, 110u8, 116u8, 71u8, 101u8, 97u8, 114u8]
    ||| t == seq![80u8, 82u8, 80u8, 88u8, 76u8, 50u8, 52u8]
    ||| t == seq![80u8, 82u8, 80u8, 88u8, 76u8, 50u8, 52u8, 45u8, 48u8, 49u8]
    ||| t == seq![80u8, 83u8]
    ||| t == seq![80u8, 84u8, 45u8, 67u8, 66u8, 80u8]
    ||| t == seq![82u8, 80u8, 67u8, 83u8]
    ||| t == seq![83u8, 67u8, 80u8]
    ||| t == seq![84u8, 88u8, 84u8, 48u8, 49u8]
    ||| t == seq![86u8, 76u8, 73u8, 78u8, 75u8]
    ||| t == seq![87u8, 105u8, 110u8, 83u8, 116u8, 121u8, 108u8, 101u8, 114u8]
    ||| t == seq![88u8, 72u8, 84u8, 77u8, 76u8]
    ||| t == seq![90u8, 74u8, 83u8]
}

/// Copy `data[a..b]` out as an owned buffer.
#[verifier::loop_isolation(false)]
fn copy_range(data: &[u8], a: usize, b: usize) -> (r: Vec<u8>)
    requires
        a <= b,
        b <= data@.len(),
    ensures
        r@ == data@.subrange(a as int, b as int),
{
    let mut out: Vec<u8> = Vec::new();
    let mut i: usize = a;
    while i < b
        invariant
            a <= i <= b,
            b <= data@.len(),
            out@ == data@.subrange(a as int, i as int),
        decreases b - i,
    {
        let x = data[i];
        out.push(x);
        proof {
            assert(data@.subrange(a as int, i as int).push(data@[i as int]) =~= data@.subrange(
                a as int,
                i as int + 1,
            ));
        }
        i = i + 1;
    }
    out
}

/// Compare two byte runs for equality.
#[verifier::loop_isolation(false)]
fn bytes_eq(a: &[u8], b: &[u8]) -> (r: bool)
    ensures
        r == (a@ == b@),
{
    if a.len() != b.len() {
        proof {
            assert(a@ != b@);
        }
        return false;
    }
    let n = a.len();
    let mut i: usize = 0;
    while i < n
        invariant
            i <= n,
            n == a@.len(),
            n == b@.len(),
            forall|j: int| 0 <= j < i ==> a@[j] == b@[j],
        decreases n - i,
    {
        if a[i] != b[i] {
            return false;
        }
        i = i + 1;
    }
    proof {
        assert(a@ =~= b@);
    }
    true
}

/// Whether `t` is in the command-set allow-list; see [`cmd_token_ok`].
fn cmd_token_allowed(t: &[u8]) -> (r: bool)
    ensures
        r == cmd_token_ok(t@),
{
    if bytes_eq(t, &[49u8, 50u8, 56u8, 52u8, 46u8, 52u8]) {
        return true;
    }
    if bytes_eq(t, &[65u8, 67u8, 76u8]) {
        return true;
    }
    if bytes_eq(t, &[66u8, 68u8, 67u8]) {
        return true;
    }
    if bytes_eq(t, &[66u8, 73u8, 68u8, 73u8, 45u8, 69u8, 67u8, 80u8]) {
        return true;
    }
    if bytes_eq(t, &[66u8, 74u8]) {
        return true;
    }
    if bytes_eq(t, &[66u8, 74u8, 76u8]) {
        return true;
    }
    if bytes_eq(t, &[66u8, 74u8, 82u8, 97u8, 115u8, 116u8, 101u8, 114u8]) {
        return true;
    }
    if bytes_eq(t, &[66u8, 74u8, 82u8, 97u8, 115u8, 116u8, 101u8, 114u8, 51u8]) {
        return true;
    }
    if bytes_eq(t, &[66u8, 83u8, 67u8, 67u8]) {
        return true;
    }
    if bytes_eq(t, &[66u8, 74u8, 83u8, 99u8, 97u8, 110u8, 50u8]) {
        return true;
    }
    if bytes_eq(t, &[67u8, 51u8, 50u8]) {
        return true;
    }
    if bytes_eq(t, &[67u8, 76u8, 83u8]) {
        return true;
    }
    if bytes_eq(t, &[67u8, 80u8, 68u8, 78u8, 80u8, 65u8, 48u8, 48u8, 49u8]) {
        return true;
    }
    if bytes_eq(t, &[68u8, 52u8]) {
        return true;
    }
    if bytes_eq(t, &[68u8, 69u8, 83u8, 75u8, 74u8, 69u8, 84u8]) {
        return true;
    }
    if bytes_eq(t, &[68u8, 87u8, 45u8, 80u8, 67u8, 76u8]) {
        return true;
    }
    if bytes_eq(t, &[68u8, 89u8, 78u8]) {
        return true;
    }
    if bytes_eq(t, &[69u8, 67u8, 80u8, 49u8, 56u8]) {
        return true;
    }
    if bytes_eq(t, &[69u8, 74u8, 76u8]) {
        return true;
    }
    if bytes_eq(t, &[69u8, 80u8, 83u8, 79u8, 78u8]) {
        return true;
    }
    if bytes_eq(t, &[69u8, 80u8, 83u8, 79u8, 78u8, 70u8, 88u8]) {
        return true;
    }
    if bytes_eq(t, &[69u8, 83u8, 67u8, 80u8, 57u8, 45u8, 56u8, 52u8]) {
        return true;
    }
    if bytes_eq(t, &[69u8, 83u8, 67u8, 80u8, 65u8, 71u8, 69u8, 45u8, 48u8, 52u8]) {
        return true;
    }
    if bytes_eq(t, &[69u8, 83u8, 67u8, 80u8, 65u8, 71u8, 69u8, 83u8, 45u8, 48u8, 50u8]) {
        return true;
    }
    if bytes_eq(t, &[69u8, 83u8, 67u8, 80u8, 76u8, 50u8]) {
        return true;
    }
    if bytes_eq(t, &[69u8, 83u8, 67u8, 80u8, 76u8, 50u8, 45u8, 48u8, 48u8]) {
        return true;
    }
    if bytes_eq(t, &[69u8, 83u8, 67u8, 47u8, 80u8, 50u8]) {
        return true;
    }
    if bytes_eq(t, &[70u8, 97u8, 115u8, 116u8, 82u8, 97u8, 115u8, 116u8, 101u8, 114u8]) {
        return true;
    }
    if bytes_eq(t, &[72u8, 73u8, 80u8, 69u8, 82u8, 87u8, 73u8, 78u8, 68u8, 79u8, 87u8, 83u8]) {
        return true;
    }
    if bytes_eq(t, &[72u8, 80u8, 71u8, 76u8, 50u8, 45u8, 48u8, 49u8]) {
        return true;
    }
    if bytes_eq(t, &[72u8, 80u8, 69u8, 78u8, 72u8, 65u8, 78u8, 67u8, 69u8, 68u8, 80u8, 67u8, 76u8, 53u8]) {
        return true;
    }
    if bytes_eq(t, &[72u8, 80u8, 69u8, 78u8, 72u8, 65u8, 78u8, 67u8, 69u8, 68u8, 80u8, 67u8, 76u8, 53u8, 101u8]) {
        return true;
    }
    if bytes_eq(t, &[72u8, 80u8, 69u8, 78u8, 72u8, 65u8, 78u8, 67u8, 69u8, 68u8, 80u8, 67u8, 76u8, 54u8]) {
        return true;
    }
    if bytes_eq(t, &[72u8, 80u8, 71u8, 68u8, 73u8]) {
        return true;
    }
    if bytes_eq(t, &[73u8, 66u8, 77u8]) {
        return true;
    }
    if bytes_eq(t, &[73u8, 66u8, 77u8, 80u8, 80u8, 82u8]) {
        return true;
    }
    if bytes_eq(t, &[76u8, 65u8, 86u8, 65u8, 70u8, 76u8, 79u8, 87u8]) {
        return true;
    }
    if bytes_eq(t, &[76u8, 68u8, 76u8]) {
        return true;
    }
    if bytes_eq(t, &[76u8, 69u8, 88u8, 87u8, 80u8, 83u8]) {
        return true;
    }
    if bytes_eq(t, &[76u8, 78u8, 80u8, 65u8, 80u8]) {
        return true;
    }
    if bytes_eq(t, &[76u8, 79u8, 87u8, 69u8, 78u8, 68u8, 76u8, 69u8, 88u8, 67u8, 80u8, 68u8]) {
        return true;
    }
    if bytes_eq(t, &[108u8, 112u8, 116u8, 49u8]) {
        return true;
    }
    if bytes_eq(t, &[76u8, 81u8]) {
        return true;
    }
    if bytes_eq(t, &[77u8, 70u8, 80u8, 68u8, 84u8, 70u8, 49u8]) {
        return true;
    }
    if bytes_eq(t, &[77u8, 70u8, 80u8, 88u8, 68u8, 77u8, 65u8]) {
        return true;
    }
    if bytes_eq(t, &[77u8, 73u8, 67u8, 82u8, 79u8, 76u8, 73u8, 78u8, 69u8]) {
        return true;
    }
    if bytes_eq(t, &[77u8, 73u8, 77u8, 69u8]) {
        return true;
    }
    if bytes_eq(t, &[77u8, 76u8, 67u8]) {
        return true;
    }
    if bytes_eq(t, &[78u8, 65u8]) {
        return true;
    }
    if bytes_eq(t, &[110u8, 111u8, 110u8, 101u8]) {
        return true;
    }
    if bytes_eq(t, &[78u8, 80u8, 65u8, 80u8]) {
        return true;
    }
    if bytes_eq(t, &[77u8, 117u8, 108u8, 116u8, 105u8, 80u8, 97u8, 115u8, 115u8, 50u8, 46u8, 49u8]) {
        return true;
    }
    if bytes_eq(t, &[79u8, 65u8, 75u8, 82u8, 65u8, 83u8]) {
        return true;
    }
    if bytes_eq(t, &[79u8, 80u8, 69u8, 76u8]) {
        return true;
    }
    if bytes_eq(t, &[80u8, 67u8, 76u8]) {
        return true;
    }
    if bytes_eq(t, &[80u8, 67u8, 76u8, 51u8]) {
        return true;
    }
    if bytes_eq(t, &[80u8, 67u8, 76u8, 52u8]) {
        return true;
    }
    if bytes_eq(t, &[80u8, 67u8, 76u8, 53u8]) {
        return true;
    }
    if bytes_eq(t, &[80u8, 67u8, 76u8, 53u8, 67u8]) {
        return true;
    }
    if bytes_eq(t, &[80u8, 67u8, 76u8, 53u8, 101u8]) {
        return true;
    }
    if bytes_eq(t, &[80u8, 67u8, 76u8, 53u8, 69u8, 50u8]) {
        return true;
    }
    if bytes_eq(t, &[80u8, 67u8, 76u8, 54u8]) {
        return true;
    }
    if bytes_eq(t, &[80u8, 67u8, 76u8, 88u8, 76u8]) {
        return true;
    }
    if bytes_eq(t, &[80u8, 67u8, 76u8, 53u8, 69u8, 109u8, 117u8, 108u8, 97u8, 116u8, 105u8, 111u8, 110u8]) {
        return true;
    }
    if bytes_eq(t, &[80u8, 67u8, 76u8, 45u8, 88u8, 76u8]) {
        return true;
    }
    if bytes_eq(t, &[80u8, 68u8, 70u8]) {
        return true;
    }
    if bytes_eq(t, &[80u8, 74u8, 76u8]) {
        return true;
    }
    if bytes_eq(t, &[80u8, 77u8, 76u8]) {
        return true;
    }
    if bytes_eq(t, &[80u8, 79u8, 83u8, 84u8, 83u8, 67u8, 82u8, 73u8, 80u8, 84u8]) {
        return true;
    }
    if bytes_eq(t, &[80u8, 79u8, 83u8, 84u8, 83u8, 67u8, 82u8, 73u8, 80u8, 84u8, 50u8]) {
        return true;
    }
    if bytes_eq(t, &[80u8, 111u8, 115u8, 116u8, 83u8, 99u8, 114u8, 105u8, 112u8, 116u8, 76u8, 101u8, 118u8, 101u8, 108u8, 50u8, 69u8, 109u8, 117u8, 108u8, 97u8, 116u8, 105u8, 111u8, 110u8]) {
        return true;
    }
    if bytes_eq(t, &[80u8, 111u8, 115u8, 116u8, 83u8, 99u8, 114u8, 105u8, 112u8, 116u8, 76u8, 101u8, 118u8, 101u8, 108u8, 51u8, 70u8, 111u8, 114u8, 77u8, 97u8, 99u8, 69u8, 109u8, 117u8, 108u8, 97u8, 116u8, 105u8, 111u8, 110u8]) {
        return true;
    }
    if bytes_eq(t, &[80u8, 114u8, 105u8, 110u8, 116u8, 71u8, 101u8, 97u8, 114u8]) {
        return true;
    }
    if bytes_eq(t, &[80u8, 82u8, 80u8, 88u8, 76u8, 50u8, 52u8]) {
        return true;
    }
    if bytes_eq(t, &[80u8, 82u8, 80u8, 88u8, 76u8, 50u8, 52u8, 45u8, 48u8, 49u8]) {
        return true;
    }
    if bytes_eq(t, &[80u8, 83u8]) {
        return true;
    }
    if bytes_eq(t, &[80u8, 84u8, 45u8, 67u8, 66u8, 80u8]) {
        return true;
    }
    if bytes_eq(t, &[82u8, 80u8, 67u8, 83u8]) {
        return true;
    }
    if bytes_eq(t, &[83u8, 67u8, 80u8]) {
        return true;
    }
    if bytes_eq(t, &[84u8, 88u8, 84u8, 48u8, 49u8]) {
        return true;
    }
    if bytes_eq(t, &[86u8, 76u8, 73u8, 78u8, 75u8]) {
        return true;
    }
    if bytes_eq(t, &[87u8, 105u8, 110u8, 83u8, 116u8, 121u8, 108u8, 101u8, 114u8]) {
        return true;
    }
    if bytes_eq(t, &[88u8, 72u8, 84u8, 77u8, 76u8]) {
        return true;
    }
    if bytes_eq(t, &[90u8, 74u8, 83u8]) {
        return true;
    }
    false
}

/// Whether every comma-separated token of `d[a..b]` is an allowed
/// command-set name.
pub open spec fn cmd_values_ok(d: Seq<u8>, a: int, b: int) -> bool
    decreases b - a + 1 when a <= b
{
    if a > b {
        true
    } else {
        let c = find_in(d, a, b, 44);
        if c < a || c > b {
            true
        } else {
            cmd_token_ok(d.subrange(a, c)) && (if c >= b {
                true
            } else {
                cmd_values_ok(d, c + 1, b)
            })
        }
    }
}

/// Check the comma-separated command-set tokens in `data[a..b]`.
#[verifier::loop_isolation(false)]
fn check_cmd_values(data: &[u8], a: usize, b: usize) -> (r: bool)
    requires
        a <= b,
        b <= data@.len(),
    ensures
        r == cmd_values_ok(data@, a as int, b as int),
{
    let mut lo: usize = a;
    loop
        invariant
            a <= lo,
            lo <= b + 1,
            b <= data@.len(),
            cmd_values_ok(data@, a as int, b as int) == (if lo <= b {
                cmd_values_ok(data@, lo as int, b as int)
            } else {
                true
            }),
        decreases b + 1 - lo,
    {
        if lo > b {
            return true;
        }
        let c = find_byte(data, lo, b, 44);
        let token = copy_range(data, lo, c);
        if !cmd_token_allowed(token.as_slice()) {
            return false;
        }
        if c >= b {
            return true;
        }
        lo = c + 1;
    }
}

/// One `key:value;` segment's contribution: whether it is well formed,
/// and which of the three required keys it carries. A segment without a
/// colon is skipped; more than one colon is an error; a `CMD` value must
/// pass the token allow-list.
pub open spec fn seg_flags(d: Seq<u8>, off: int, end: int) -> (bool, bool, bool, bool) {
    let c = find_in(d, off, end, 58);
    if c >= end {
        (true, false, false, false)
    } else if find_in(d, c + 1, end, 58) < end {
        (false, false, false, false)
    } else {
        if contains_in(d, off, c, kw_manufacturer()) || contains_in(d, off, c, kw_mfg()) {
            (true, true, false, false)
        } else if contains_in(d, off, c, kw_command_set()) || contains_in(d, off, c, kw_cmd()) {
            (cmd_values_ok(d, c + 1, end), false, true, false)
        } else if contains_in(d, off, c, kw_model()) || contains_in(d, off, c, kw_mdl()) {
            (true, false, false, true)
        } else {
            (true, false, false, false)
        }
    }
}

/// The scan over all `;`-separated segments of `d[off..end]`: whether
/// every segment is well formed, and whether the manufacturer, command
/// set and model keys were each seen.
pub open spec fn scan_flags(d: Seq<u8>, off: int, end: int) -> (bool, bool, bool, bool)
    decreases end - off + 1 when off <= end
{
    if off >= end {
        (true, false, false, false)
    } else {
        let e = find_in(d, off, end, 59);
        if e < off || e > end {
            (true, false, false, false)
        } else {
            let seg = seg_flags(d, off, e);
            if !seg.0 {
                (false, false, false, false)
            } else if e >= end {
                seg
            } else {
                let rest = scan_flags(d, e + 1, end);
                (rest.0, seg.1 || rest.1, seg.2 || rest.2, seg.3 || rest.3)
            }
        }
    }
}

/// What a valid IEEE 1284 device-id string is: well-formed UTF-8 whose
/// trimmed `key:value;` segments are each well formed and include the
/// manufacturer, command-set and model keys.
pub open spec fn ieee1284_ok(d: Seq<u8>) -> bool {
    &&& utf8_ok_from(d, 0)
    &&& {
        let lo = trim_start(d, 0);
        let hi = trim_end(d, d.len() as int);
        let flags = if lo <= hi {
            scan_flags(d, lo, hi)
        } else {
            (true, false, false, false)
        };
        flags.0 && flags.1 && flags.2 && flags.3
    }
}

/// Scan the `;`-separated segments of `data[off..hi]`; see
/// [`scan_flags`].
fn scan_segments(data: &[u8], off: usize, hi: usize) -> (r: (bool, bool, bool, bool))
    requires
        off <= hi,
        hi <= data@.len(),
    ensures
        r == scan_flags(data@, off as int, hi as int),
    decreases hi - off + 1,
{
    if off >= hi {
        return (true, false, false, false);
    }
    let e = find_byte(data, off, hi, 59);
    // Evaluate this segment.
    let c = find_byte(data, off, e, 58);
    let seg: (bool, bool, bool, bool) = if c >= e {
        (true, false, false, false)
    } else if find_byte(data, c + 1, e, 58) < e {
        (false, false, false, false)
    } else if contains_bytes(
        data,
        off,
        c,
        &[77u8, 65u8, 78u8, 85u8, 70u8, 65u8, 67u8, 84u8, 85u8, 82u8, 69u8, 82u8],
    ) || contains_bytes(data, off, c, &[77u8, 70u8, 71u8]) {
        (true, true, false, false)
    } else if contains_bytes(
        data,
        off,
        c,
        &[67u8, 79u8, 77u8, 77u8, 65u8, 78u8, 68u8, 32u8, 83u8, 69u8, 84u8],
    ) || contains_bytes(data, off, c, &[67u8, 77u8, 68u8]) {
        (check_cmd_values(data, c + 1, e), false, true, false)
    } else if contains_bytes(data, off, c, &[77u8, 79u8, 68u8, 69u8, 76u8]) || contains_bytes(
        data,
        off,
        c,
        &[77u8, 68u8, 76u8],
    ) {
        (true, false, false, true)
    } else {
        (true, false, false, false)
    };
    if !seg.0 {
        return (false, false, false, false);
    }
    if e >= hi {
        return seg;
    }
    let rest = scan_segments(data, e + 1, hi);
    (rest.0, seg.1 || rest.1, seg.2 || rest.2, seg.3 || rest.3)
}

/// Check an IEEE 1284 device-id string; see [`ieee1284_ok`].
#[verifier::loop_isolation(false)]
pub fn check_ieee_1284_string(data: &[u8]) -> (r: bool)
    ensures
        r == ieee1284_ok(data@),
{
    if !is_valid_utf8(data) {
        return false;
    }
    let n = data.len();
    let mut lo: usize = 0;
    while lo < n && (data[lo] == 0x20 || (0x09 <= data[lo] && data[lo] <= 0x0d))
        invariant
            lo <= n,
            n == data@.len(),
            trim_start(data@, 0) == trim_start(data@, lo as int),
        decreases n - lo,
    {
        lo = lo + 1;
    }
    let mut hi: usize = n;
    while hi > 0 && (data[hi - 1] == 0x20 || (0x09 <= data[hi - 1] && data[hi - 1] <= 0x0d))
        invariant
            hi <= n,
            n == data@.len(),
            trim_end(data@, n as int) == trim_end(data@, hi as int),
        decreases hi,
    {
        hi = hi - 1;
    }
    proof {
        assert(trim_start(data@, lo as int) == lo as int);
        assert(trim_end(data@, hi as int) == hi as int);
    }
    if lo <= hi {
        let flags = scan_segments(data, lo, hi);
        flags.0 && flags.1 && flags.2 && flags.3
    } else {
        false
    }
}

/// The printer-class request rules: a GET_DEVICE_ID reply is a length
/// prefix plus a valid device-id string, a port-status reply uses only
/// its three defined bits, and a soft reset may only come from the host.
pub open spec fn printer_request_ok(h: ControlPacketHeader, data: Seq<u8>, source: Source) -> bool {
    if h.request == printer::GET_DEVICE_ID {
        source != Source::Blue ==> {
            &&& data.len() >= 2
            &&& (data[0] * 256 + data[1]) == data.len()
            &&& ieee1284_ok(data.skip(2))
        }
    } else if h.request == printer::GET_PORT_STATUS {
        source != Source::Blue ==> {
            &&& data.len() == 1
            &&& data[0] & 0xc7 == 0
        }
    } else if h.request == printer::SOFT_RESET {
        source == Source::Blue
    } else {
        false
    }
}

/// Check a printer-class control request; see [`printer_request_ok`].
pub fn check_printer_request(h: &ControlPacketHeader, data: &[u8], source: Source) -> (r: bool)
    ensures
        r == printer_request_ok(*h, data@, source),
{
    let from_device = !matches!(source, Source::Blue);
    if h.request == printer::GET_DEVICE_ID {
        if from_device {
            if data.len() < 2 {
                return false;
            }
            // The first two bytes are a big-endian total length.
            let blen: usize = (data[0] as usize) * 256 + (data[1] as usize);
            if blen != data.len() {
                return false;
            }
            let rest = copy_range(data, 2, data.len());
            if !check_ieee_1284_string(rest.as_slice()) {
                proof {
                    assert(rest@ =~= data@.skip(2));
                }
                return false;
            }
            proof {
                assert(rest@ =~= data@.skip(2));
            }
        }
        true
    } else if h.request == printer::GET_PORT_STATUS {
        if from_device {
            if data.len() != 1 {
                return false;
            }
            if data[0] & 0xc7 != 0 {
                return false;
            }
        }
        true
    } else if h.request == printer::SOFT_RESET {
        matches!(source, Source::Blue)
    } else {
        false
    }
}

} // verus!
