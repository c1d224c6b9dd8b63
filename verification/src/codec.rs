//! Gateway frame codec.
//!
//! Inbound frames are raw JSON objects `{"op":..,"s":..,"t":..,"d":..}`.
//! The scanner below locates the opcode, sequence number and event type by
//! walking the top-level members only, tolerating any key order and string
//! escapes, without building a document tree.  Writers produce the frames
//! the client sends.  Scanning is specified by recursive spec functions and
//! the executable code is proved to match them.

use vstd::prelude::*;

verus! {

pub const QUOTE: u8 = 34;
pub const BACKSLASH: u8 = 92;
pub const LBRACE: u8 = 123;
pub const RBRACE: u8 = 125;
pub const LBRACKET: u8 = 91;
pub const RBRACKET: u8 = 93;
pub const COMMA: u8 = 44;
pub const COLON: u8 = 58;
pub const SPACE: u8 = 32;
pub const TAB: u8 = 9;
pub const NEWLINE: u8 = 10;
pub const CARRIAGE: u8 = 13;
pub const ZERO: u8 = 48;
pub const NINE: u8 = 57;

/// Decimal digit.
pub open spec fn spec_is_digit(b: u8) -> bool {
    ZERO <= b <= NINE
}

/// JSON insignificant whitespace.
pub open spec fn spec_is_ws(b: u8) -> bool {
    b == SPACE || b == TAB || b == NEWLINE || b == CARRIAGE
}

/// The decimal digits of `n`, most significant first.
pub open spec fn spec_u64_digits(n: u64) -> Seq<u8>
    decreases n,
{
    if n < 10 {
        seq![(ZERO + n) as u8]
    } else {
        spec_u64_digits(n / 10).push((ZERO + n % 10) as u8)
    }
}

pub proof fn lemma_u64_digits_are_digits(n: u64)
    ensures
        spec_u64_digits(n).len() >= 1,
        forall|i: int| 0 <= i < spec_u64_digits(n).len() ==> spec_is_digit(
            #[trigger] spec_u64_digits(n)[i],
        ),
    decreases n,
{
    if n >= 10 {
        lemma_u64_digits_are_digits(n / 10);
    }
}

/// Render `n` in decimal.
pub fn u64_to_digits(n: u64) -> (out: Vec<u8>)
    ensures
        out@ == spec_u64_digits(n),
    decreases n,
{
    if n < 10 {
        let mut v: Vec<u8> = Vec::new();
        v.push(ZERO + (n as u8));
        assert(v@ =~= spec_u64_digits(n));
        v
    } else {
        let mut v = u64_to_digits(n / 10);
        v.push(ZERO + ((n % 10) as u8));
        v
    }
}

/// Scan a run of digits starting at `i`, accumulating onto `acc`.
/// Stops at the first non-digit (or the end); `None` when the value would
/// not fit in a `u64`.
pub open spec fn spec_parse_num(s: Seq<u8>, i: int, acc: u64) -> Option<(u64, int)>
    decreases s.len() - i,
{
    if i < 0 || i > s.len() {
        None
    } else if i == s.len() || !spec_is_digit(s[i]) {
        Some((acc, i))
    } else {
        let d = (s[i] - ZERO) as u64;
        if acc > (u64::MAX - d) / 10 {
            None
        } else {
            spec_parse_num(s, i + 1, (acc * 10 + d) as u64)
        }
    }
}

/// Executable twin of [`spec_parse_num`].
pub fn parse_num(s: &Vec<u8>, i: usize, acc: u64) -> (r: Option<(u64, usize)>)
    requires
        i <= s@.len(),
    ensures
        match r {
            Some((v, j)) => spec_parse_num(s@, i as int, acc) == Some((v, j as int)) && i <= j
                <= s@.len(),
            None => spec_parse_num(s@, i as int, acc) is None,
        },
    decreases s@.len() - i,
{
    if i == s.len() || !(ZERO <= s[i] && s[i] <= NINE) {
        Some((acc, i))
    } else {
        let d: u64 = (s[i] - ZERO) as u64;
        if acc > (u64::MAX - d) / 10 {
            None
        } else {
            parse_num(s, i + 1, acc * 10 + d)
        }
    }
}

/// First position at or after `i` holding a non-whitespace byte.
pub open spec fn spec_skip_ws(s: Seq<u8>, i: int) -> int
    decreases s.len() - i,
{
    if 0 <= i < s.len() && spec_is_ws(s[i]) {
        spec_skip_ws(s, i + 1)
    } else {
        i
    }
}

/// Executable twin of [`spec_skip_ws`].
pub fn skip_ws(s: &Vec<u8>, i: usize) -> (j: usize)
    requires
        i <= s@.len(),
    ensures
        j == spec_skip_ws(s@, i as int),
        i <= j <= s@.len(),
    decreases s@.len() - i,
{
    if i < s.len() && (s[i] == SPACE || s[i] == TAB || s[i] == NEWLINE || s[i] == CARRIAGE) {
        skip_ws(s, i + 1)
    } else {
        i
    }
}

/// Position of the closing quote of a string whose content starts at `i`,
/// honouring backslash escapes.
pub open spec fn spec_scan_string_end(s: Seq<u8>, i: int) -> Option<int>
    decreases s.len() - i,
{
    if i < 0 || i >= s.len() {
        None
    } else if s[i] == QUOTE {
        Some(i)
    } else if s[i] == BACKSLASH {
        if i + 2 <= s.len() {
            spec_scan_string_end(s, i + 2)
        } else {
            None
        }
    } else {
        spec_scan_string_end(s, i + 1)
    }
}

/// Executable twin of [`spec_scan_string_end`].
pub fn scan_string_end(s: &Vec<u8>, i: usize) -> (r: Option<usize>)
    requires
        i <= s@.len(),
    ensures
        match r {
            Some(j) => spec_scan_string_end(s@, i as int) == Some(j as int) && i <= j < s@.len(),
            None => spec_scan_string_end(s@, i as int) is None,
        },
    decreases s@.len() - i,
{
    if i >= s.len() {
        None
    } else if s[i] == QUOTE {
        Some(i)
    } else if s[i] == BACKSLASH {
        if s.len() - i >= 2 {
            scan_string_end(s, i + 2)
        } else {
            None
        }
    } else {
        scan_string_end(s, i + 1)
    }
}

/// Byte that may continue a scalar token (a number or a literal such as
/// `true`); anything structural or blank ends the token.
pub open spec fn spec_is_scalar_byte(b: u8) -> bool {
    !spec_is_ws(b) && b != COMMA && b != COLON && b != QUOTE && b != LBRACE && b != RBRACE
        && b != LBRACKET && b != RBRACKET
}

/// End of a scalar token starting at `i`.
pub open spec fn spec_skip_scalar(s: Seq<u8>, i: int) -> int
    decreases s.len() - i,
{
    if 0 <= i < s.len() && spec_is_scalar_byte(s[i]) {
        spec_skip_scalar(s, i + 1)
    } else {
        i
    }
}

/// Executable twin of [`spec_skip_scalar`].
pub fn skip_scalar(s: &Vec<u8>, i: usize) -> (j: usize)
    requires
        i <= s@.len(),
    ensures
        j == spec_skip_scalar(s@, i as int),
        i <= j <= s@.len(),
    decreases s@.len() - i,
{
    if i < s.len() && !(s[i] == SPACE || s[i] == TAB || s[i] == NEWLINE || s[i] == CARRIAGE || s[i]
        == COMMA || s[i] == COLON || s[i] == QUOTE || s[i] == LBRACE || s[i] == RBRACE || s[i]
        == LBRACKET || s[i] == RBRACKET) {
        skip_scalar(s, i + 1)
    } else {
        i
    }
}

/// Scan the inside of a container opened before `i` until the byte `close`,
/// treating strings as atomic and nested containers recursively.  Returns
/// the position just past `close`.
pub open spec fn spec_skip_container(s: Seq<u8>, i: int, close: u8) -> Option<int>
    decreases s.len() - i, 0int,
{
    if i < 0 || i >= s.len() {
        None
    } else if s[i] == close {
        Some(i + 1)
    } else if s[i] == QUOTE {
        match spec_scan_string_end(s, i + 1) {
            Some(q) => if i < q + 1 <= s.len() {
                spec_skip_container(s, q + 1, close)
            } else {
                None
            },
            None => None,
        }
    } else if s[i] == LBRACE {
        match spec_skip_container(s, i + 1, RBRACE) {
            Some(e) => if i < e <= s.len() {
                spec_skip_container(s, e, close)
            } else {
                None
            },
            None => None,
        }
    } else if s[i] == LBRACKET {
        match spec_skip_container(s, i + 1, RBRACKET) {
            Some(e) => if i < e <= s.len() {
                spec_skip_container(s, e, close)
            } else {
                None
            },
            None => None,
        }
    } else {
        spec_skip_container(s, i + 1, close)
    }
}

/// Executable twin of [`spec_skip_container`].
pub fn skip_container(s: &Vec<u8>, i: usize, close: u8) -> (r: Option<usize>)
    requires
        i <= s@.len(),
    ensures
        match r {
            Some(j) => spec_skip_container(s@, i as int, close) == Some(j as int) && i < j
                <= s@.len(),
            None => spec_skip_container(s@, i as int, close) is None,
        },
    decreases s@.len() - i, 0int,
{
    if i >= s.len() {
        None
    } else if s[i] == close {
        Some(i + 1)
    } else if s[i] == QUOTE {
        match scan_string_end(s, i + 1) {
            Some(q) => skip_container(s, q + 1, close),
            None => None,
        }
    } else if s[i] == LBRACE {
        match skip_container(s, i + 1, RBRACE) {
            Some(e) => skip_container(s, e, close),
            None => None,
        }
    } else if s[i] == LBRACKET {
        match skip_container(s, i + 1, RBRACKET) {
            Some(e) => skip_container(s, e, close),
            None => None,
        }
    } else {
        skip_container(s, i + 1, close)
    }
}

/// End (exclusive) of the JSON value starting at `i`.
pub open spec fn spec_skip_value(s: Seq<u8>, i: int) -> Option<int> {
    if i < 0 || i >= s.len() {
        None
    } else if s[i] == QUOTE {
        match spec_scan_string_end(s, i + 1) {
            Some(q) => Some(q + 1),
            None => None,
        }
    } else if s[i] == LBRACE {
        spec_skip_container(s, i + 1, RBRACE)
    } else if s[i] == LBRACKET {
        spec_skip_container(s, i + 1, RBRACKET)
    } else if spec_is_scalar_byte(s[i]) {
        Some(spec_skip_scalar(s, i + 1))
    } else {
        None
    }
}

/// Executable twin of [`spec_skip_value`].
pub fn skip_value(s: &Vec<u8>, i: usize) -> (r: Option<usize>)
    requires
        i <= s@.len(),
    ensures
        match r {
            Some(j) => spec_skip_value(s@, i as int) == Some(j as int) && i < j <= s@.len(),
            None => spec_skip_value(s@, i as int) is None,
        },
{
    if i >= s.len() {
        None
    } else if s[i] == QUOTE {
        match scan_string_end(s, i + 1) {
            Some(q) => Some(q + 1),
            None => None,
        }
    } else if s[i] == LBRACE {
        skip_container(s, i + 1, RBRACE)
    } else if s[i] == LBRACKET {
        skip_container(s, i + 1, RBRACKET)
    } else if !(s[i] == SPACE || s[i] == TAB || s[i] == NEWLINE || s[i] == CARRIAGE || s[i]
        == COMMA || s[i] == COLON || s[i] == RBRACE || s[i] == RBRACKET) {
        Some(skip_scalar(s, i + 1))
    } else {
        None
    }
}

/// Ghost record of what a frame scan has established so far.
pub ghost struct SpecFrame {
    pub op: Option<u64>,
    pub seq: Option<u64>,
    pub event_type: Option<Seq<u8>>,
    pub payload: Option<(int, int)>,
}

/// Result of scanning a frame: the opcode, the sequence number and event
/// type when present, and the byte range of the `d` member when one was
/// walked before the scan could stop.
pub struct FrameScan {
    pub op: Option<u64>,
    pub seq: Option<u64>,
    pub event_type: Option<Vec<u8>>,
    pub payload: Option<(usize, usize)>,
}

impl View for FrameScan {
    type V = SpecFrame;

    open spec fn view(&self) -> SpecFrame {
        SpecFrame {
            op: self.op,
            seq: self.seq,
            event_type: match self.event_type {
                Some(t) => Some(t@),
                None => None,
            },
            payload: match self.payload {
                Some((a, b)) => Some((a as int, b as int)),
                None => None,
            },
        }
    }
}

pub open spec fn key_op() -> Seq<u8> {
    seq![111u8, 112u8]
}

pub open spec fn key_s() -> Seq<u8> {
    seq![115u8]
}

pub open spec fn key_t() -> Seq<u8> {
    seq![116u8]
}

pub open spec fn key_d() -> Seq<u8> {
    seq![100u8]
}

/// The literal `null` starts at `i`.
pub open spec fn spec_is_null_at(s: Seq<u8>, i: int) -> bool {
    0 <= i && i + 4 <= s.len() && s[i] == 110 && s[i + 1] == 117 && s[i + 2] == 108 && s[i + 3]
        == 108
}

/// One step of the member walk: the value of the member whose key runs over
/// `key`, starting at `v`.  Returns the updated record and the end of the
/// value, or `None` for an ill-formed member.
pub open spec fn spec_scan_member_value(
    s: Seq<u8>,
    key: Seq<u8>,
    v: int,
    acc: SpecFrame,
) -> Option<(SpecFrame, int)> {
    if v < 0 || v >= s.len() {
        None
    } else if key == key_op() {
        if spec_is_digit(s[v]) {
            match spec_parse_num(s, v, 0) {
                Some((n, e)) => Some((SpecFrame { op: Some(n), ..acc }, e)),
                None => None,
            }
        } else if spec_is_null_at(s, v) {
            Some((acc, v + 4))
        } else {
            None
        }
    } else if key == key_s() {
        if spec_is_digit(s[v]) {
            match spec_parse_num(s, v, 0) {
                Some((n, e)) => Some((SpecFrame { seq: Some(n), ..acc }, e)),
                None => None,
            }
        } else if spec_is_null_at(s, v) {
            Some((acc, v + 4))
        } else {
            None
        }
    } else if key == key_t() {
        if s[v] == QUOTE {
            match spec_scan_string_end(s, v + 1) {
                Some(q) => Some(
                    (SpecFrame { event_type: Some(s.subrange(v + 1, q)), ..acc }, q + 1),
                ),
                None => None,
            }
        } else if spec_is_null_at(s, v) {
            Some((acc, v + 4))
        } else {
            None
        }
    } else {
        match spec_skip_value(s, v) {
            Some(e) => if key == key_d() {
                Some((SpecFrame { payload: Some((v, e)), ..acc }, e))
            } else {
                Some((acc, e))
            },
            None => None,
        }
    }
}

/// The scan may stop once the opcode, the sequence number and the event
/// type have all been found with proper values: nothing later in the frame
/// can change them (the first occurrence of a key wins).
pub open spec fn spec_scan_done(acc: SpecFrame) -> bool {
    acc.op is Some && acc.seq is Some && acc.event_type is Some
}

/// Walk the members of the top-level object from `i` (just after `{` or a
/// comma), accumulating onto `acc`.
pub open spec fn spec_scan_members(s: Seq<u8>, i: int, acc: SpecFrame) -> Option<SpecFrame>
    decreases s.len() - i,
{
    if i < 0 || i > s.len() {
        None
    } else {
        let j = spec_skip_ws(s, i);
        if j >= s.len() || j < i {
            None
        } else if s[j] == RBRACE {
            Some(acc)
        } else if s[j] != QUOTE {
            None
        } else {
            match spec_scan_string_end(s, j + 1) {
                Some(ke) => {
                    let key = s.subrange(j + 1, ke);
                    let c = spec_skip_ws(s, ke + 1);
                    if c >= s.len() || c < ke + 1 || s[c] != COLON {
                        None
                    } else {
                        let v = spec_skip_ws(s, c + 1);
                        if v < c + 1 {
                            None
                        } else {
                            match spec_scan_member_value(s, key, v, acc) {
                                Some((acc2, e)) => if spec_scan_done(acc2) {
                                    Some(acc2)
                                } else if e < v || e > s.len() {
                                    None
                                } else {
                                    let w = spec_skip_ws(s, e);
                                    if w >= s.len() || w < e {
                                        None
                                    } else if s[w] == RBRACE {
                                        Some(acc2)
                                    } else if s[w] == COMMA && w + 1 > i {
                                        spec_scan_members(s, w + 1, acc2)
                                    } else {
                                        None
                                    }
                                },
                                None => None,
                            }
                        }
                    }
                },
                None => None,
            }
        }
    }
}

/// Scan a whole frame: an object whose members are walked by
/// [`spec_scan_members`].
pub open spec fn spec_scan_frame(s: Seq<u8>) -> Option<SpecFrame> {
    let j = spec_skip_ws(s, 0);
    if 0 <= j < s.len() && s[j] == LBRACE {
        spec_scan_members(
            s,
            j + 1,
            SpecFrame { op: None, seq: None, event_type: None, payload: None },
        )
    } else {
        None
    }
}

/// Copy the bytes `s[a..b]` into a fresh vector.
pub fn copy_range(s: &Vec<u8>, a: usize, b: usize) -> (out: Vec<u8>)
    requires
        a <= b <= s@.len(),
    ensures
        out@ == s@.subrange(a as int, b as int),
{
    let mut out: Vec<u8> = Vec::new();
    assert(out@ =~= s@.subrange(a as int, a as int));
    let mut k = a;
    while k < b
        invariant
            a <= k <= b <= s@.len(),
            out@ == s@.subrange(a as int, k as int),
        decreases b - k,
    {
        out.push(s[k]);
        assert(out@ =~= s@.subrange(a as int, (k + 1) as int));
        k += 1;
    }
    out
}

/// The literal `null` starts at `i` (executable form).
fn is_null_at(s: &Vec<u8>, i: usize) -> (r: bool)
    requires
        i <= s@.len(),
    ensures
        r == spec_is_null_at(s@, i as int),
{
    s.len() - i >= 4 && s[i] == 110 && s[i + 1] == 117 && s[i + 2] == 108 && s[i + 3] == 108
}

/// Executable twin of [`spec_scan_members`].
pub fn scan_members(s: &Vec<u8>, i: usize, acc: FrameScan) -> (r: Option<FrameScan>)
    requires
        i <= s@.len(),
    ensures
        match r {
            Some(f) => spec_scan_members(s@, i as int, acc@) == Some(f@),
            None => spec_scan_members(s@, i as int, acc@) is None,
        },
    decreases s@.len() - i,
{
    let ghost acc0 = acc@;
    let j = skip_ws(s, i);
    if j >= s.len() {
        return None;
    }
    if s[j] == RBRACE {
        return Some(acc);
    }
    if s[j] != QUOTE {
        return None;
    }
    let ke = match scan_string_end(s, j + 1) {
        Some(k) => k,
        None => {
            return None;
        },
    };
    let ghost key = s@.subrange(j + 1 as int, ke as int);
    let c = skip_ws(s, ke + 1);
    if c >= s.len() {
        return None;
    }
    if s[c] != COLON {
        return None;
    }
    let v = skip_ws(s, c + 1);
    if v >= s.len() {
        assert(spec_scan_member_value(s@, key, v as int, acc0) is None);
        return None;
    }
    let klen = ke - (j + 1);
    let is_key_op = klen == 2 && s[j + 1] == 111 && s[j + 2] == 112;
    let is_key_s = klen == 1 && s[j + 1] == 115;
    let is_key_t = klen == 1 && s[j + 1] == 116;
    let is_key_d = klen == 1 && s[j + 1] == 100;
    proof {
        assert(key.len() == ke - (j + 1));
        assert(key_op().len() == 2 && key_op()[0] == 111 && key_op()[1] == 112);
        assert(key_s().len() == 1 && key_s()[0] == 115);
        assert(key_t().len() == 1 && key_t()[0] == 116);
        assert(key_d().len() == 1 && key_d()[0] == 100);
        assert(forall|q: int| 0 <= q < key.len() ==> key[q] == s@[j + 1 + q]);
        if is_key_op {
            assert(key =~= key_op());
        }
        if is_key_s {
            assert(key =~= key_s());
        }
        if is_key_t {
            assert(key =~= key_t());
        }
        if is_key_d {
            assert(key =~= key_d());
        }
        if !is_key_op && key.len() == 2 {
            assert(key[0] == s@[j + 1] && key[1] == s@[j + 2]);
        }
        if key.len() == 1 {
            assert(key[0] == s@[j + 1]);
        }
        assert(!is_key_op ==> key != key_op());
        assert(!is_key_s ==> key != key_s());
        assert(!is_key_t ==> key != key_t());
        assert(!is_key_d ==> key != key_d());
    }
    // the value of this member, and its end
    let stepped: Option<(FrameScan, usize)> = if is_key_op {
        if ZERO <= s[v] && s[v] <= NINE {
            match parse_num(s, v, 0) {
                Some((n, e)) => Some((FrameScan { op: Some(n), ..acc }, e)),
                None => None,
            }
        } else if is_null_at(s, v) {
            Some((acc, v + 4))
        } else {
            None
        }
    } else if is_key_s {
        if ZERO <= s[v] && s[v] <= NINE {
            match parse_num(s, v, 0) {
                Some((n, e)) => Some((FrameScan { seq: Some(n), ..acc }, e)),
                None => None,
            }
        } else if is_null_at(s, v) {
            Some((acc, v + 4))
        } else {
            None
        }
    } else if is_key_t {
        if s[v] == QUOTE {
            match scan_string_end(s, v + 1) {
                Some(q) => {
                    let name = copy_range(s, v + 1, q);
                    Some((FrameScan { event_type: Some(name), ..acc }, q + 1))
                },
                None => None,
            }
        } else if is_null_at(s, v) {
            Some((acc, v + 4))
        } else {
            None
        }
    } else {
        match skip_value(s, v) {
            Some(e) => if is_key_d {
                Some((FrameScan { payload: Some((v, e)), ..acc }, e))
            } else {
                Some((acc, e))
            },
            None => None,
        }
    };
    let (acc2, e) = match stepped {
        Some(p) => p,
        None => {
            assert(spec_scan_member_value(s@, key, v as int, acc0) is None);
            return None;
        },
    };
    assert(spec_scan_member_value(s@, key, v as int, acc0) == Some((acc2@, e as int)));
    if acc2.op.is_some() && acc2.seq.is_some() && acc2.event_type.is_some() {
        return Some(acc2);
    }
    let w = skip_ws(s, e);
    if w >= s.len() {
        return None;
    }
    if s[w] == RBRACE {
        return Some(acc2);
    }
    if s[w] == COMMA {
        return scan_members(s, w + 1, acc2);
    }
    None
}

/// Executable twin of [`spec_scan_frame`].
pub fn scan_frame(s: &Vec<u8>) -> (r: Option<FrameScan>)
    ensures
        match r {
            Some(f) => spec_scan_frame(s@) == Some(f@),
            None => spec_scan_frame(s@) is None,
        },
{
    let j = skip_ws(s, 0);
    if j < s.len() && s[j] == LBRACE {
        let acc = FrameScan { op: None, seq: None, event_type: None, payload: None };
        assert(acc@ == SpecFrame { op: None, seq: None, event_type: None, payload: None });
        scan_members(s, j + 1, acc)
    } else {
        None
    }
}

/// Append `src` to `out`.
pub fn push_bytes(out: &mut Vec<u8>, src: &Vec<u8>)
    ensures
        final(out)@ == old(out)@ + src@,
{
    let ghost base = out@;
    let mut k: usize = 0;
    while k < src.len()
        invariant
            k <= src@.len(),
            out@ == base + src@.subrange(0, k as int),
        decreases src@.len() - k,
    {
        out.push(src[k]);
        assert(out@ =~= base + src@.subrange(0, (k + 1) as int));
        k += 1;
    }
    assert(out@ =~= base + src@);
}

/// `10^k`.
pub open spec fn spec_pow10(k: nat) -> int
    decreases k,
{
    if k == 0 {
        1
    } else {
        10 * spec_pow10((k - 1) as nat)
    }
}

pub proof fn lemma_pow10_pos(k: nat)
    ensures
        spec_pow10(k) >= 1,
    decreases k,
{
    if k > 0 {
        lemma_pow10_pos((k - 1) as nat);
    }
}

/// Numeric value of a run of decimal digit bytes.
pub open spec fn spec_digits_val(d: Seq<u8>) -> int
    decreases d.len(),
{
    if d.len() == 0 {
        0
    } else {
        spec_digits_val(d.drop_last()) * 10 + (d.last() - ZERO)
    }
}

pub proof fn lemma_digits_val_of_u64(n: u64)
    ensures
        spec_digits_val(spec_u64_digits(n)) == n,
    decreases n,
{
    if n < 10 {
        assert(spec_u64_digits(n).drop_last() =~= Seq::<u8>::empty());
        assert(spec_digits_val(Seq::<u8>::empty()) == 0);
        assert(spec_u64_digits(n).last() == (ZERO + n) as u8);
    } else {
        lemma_digits_val_of_u64(n / 10);
        assert(spec_u64_digits(n).drop_last() =~= spec_u64_digits(n / 10));
    }
}

pub proof fn lemma_digits_val_front(d: Seq<u8>)
    requires
        d.len() >= 1,
    ensures
        spec_digits_val(d) == (d[0] - ZERO) * spec_pow10((d.len() - 1) as nat) + spec_digits_val(
            d.subrange(1, d.len() as int),
        ),
    decreases d.len(),
{
    if d.len() == 1 {
        assert(d.drop_last() =~= Seq::<u8>::empty());
        assert(d.subrange(1, 1) =~= Seq::<u8>::empty());
    } else {
        let head = d.drop_last();
        lemma_digits_val_front(head);
        assert(head.subrange(1, head.len() as int) =~= d.subrange(1, d.len() as int).drop_last());
        assert(d.subrange(1, d.len() as int).last() == d.last());
        assert(spec_digits_val(d.subrange(1, d.len() as int)) == spec_digits_val(
            head.subrange(1, head.len() as int),
        ) * 10 + (d.last() - ZERO));
        assert((d[0] - ZERO) * spec_pow10((d.len() - 1) as nat) == ((d[0] - ZERO) * spec_pow10(
            (head.len() - 1) as nat,
        )) * 10) by (nonlinear_arith)
            requires
                d.len() >= 2,
                head.len() == d.len() - 1,
                spec_pow10((d.len() - 1) as nat) == 10 * spec_pow10((head.len() - 1) as nat),
        {}
    }
}

pub proof fn lemma_digits_val_bounds(d: Seq<u8>)
    requires
        forall|q: int| 0 <= q < d.len() ==> spec_is_digit(#[trigger] d[q]),
    ensures
        0 <= spec_digits_val(d) < spec_pow10(d.len() as nat),
    decreases d.len(),
{
    if d.len() == 0 {
    } else {
        let head = d.drop_last();
        lemma_digits_val_bounds(head);
        lemma_pow10_pos((d.len() - 1) as nat);
        assert(spec_digits_val(head) * 10 + (d.last() - ZERO) < spec_pow10(d.len() as nat))
            by (nonlinear_arith)
            requires
                spec_digits_val(head) < spec_pow10((d.len() - 1) as nat),
                spec_digits_val(head) >= 0,
                d.last() - ZERO <= 9,
                spec_pow10(d.len() as nat) == 10 * spec_pow10((d.len() - 1) as nat),
        {}
    }
}

/// A run of digit bytes at `[i, j)` with a non-digit boundary parses to its
/// numeric value.
pub proof fn lemma_parse_num_digits(s: Seq<u8>, i: int, j: int, acc: u64)
    requires
        0 <= i <= j <= s.len(),
        forall|q: int| i <= q < j ==> spec_is_digit(#[trigger] s[q]),
        j == s.len() || !spec_is_digit(s[j]),
        acc * spec_pow10((j - i) as nat) + spec_digits_val(s.subrange(i, j)) <= u64::MAX,
    ensures
        spec_parse_num(s, i, acc) == Some(
            ((acc * spec_pow10((j - i) as nat) + spec_digits_val(s.subrange(i, j))) as u64, j),
        ),
    decreases j - i,
{
    let d = s.subrange(i, j);
    lemma_digits_val_bounds(d);
    lemma_pow10_pos((j - i) as nat);
    if i == j {
        assert(d =~= Seq::<u8>::empty());
    } else {
        assert(spec_is_digit(s[i]));
        let d0 = (s[i] - ZERO) as u64;
        lemma_digits_val_front(d);
        assert(d.subrange(1, d.len() as int) =~= s.subrange(i + 1, j));
        let tail = s.subrange(i + 1, j);
        lemma_digits_val_bounds(tail);
        lemma_pow10_pos((j - i - 1) as nat);
        assert(acc * 10 + d0 <= u64::MAX) by (nonlinear_arith)
            requires
                acc * spec_pow10((j - i) as nat) + spec_digits_val(d) <= u64::MAX,
                spec_pow10((j - i) as nat) == 10 * spec_pow10((j - i - 1) as nat),
                spec_digits_val(d) == d0 * spec_pow10((j - i - 1) as nat) + spec_digits_val(tail),
                spec_pow10((j - i - 1) as nat) >= 1,
                spec_digits_val(tail) >= 0,
                acc >= 0,
                d0 >= 0,
                j - i >= 1,
        {}
        let acc2: u64 = ((acc * 10 + d0) as u64);
        assert(acc2 * spec_pow10((j - i - 1) as nat) + spec_digits_val(tail) == acc * spec_pow10(
            (j - i) as nat,
        ) + spec_digits_val(d)) by (nonlinear_arith)
            requires
                acc2 == acc * 10 + d0,
                spec_pow10((j - i) as nat) == 10 * spec_pow10((j - i - 1) as nat),
                spec_digits_val(d) == d0 * spec_pow10((j - i - 1) as nat) + spec_digits_val(tail),
                j - i >= 1,
        {}
        assert(acc2 <= acc2 * spec_pow10((j - i - 1) as nat) + spec_digits_val(tail))
            by (nonlinear_arith)
            requires
                spec_pow10((j - i - 1) as nat) >= 1,
                spec_digits_val(tail) >= 0,
                acc2 >= 0,
        {}
        assert(!(acc > (u64::MAX - d0) / 10));
        lemma_parse_num_digits(s, i + 1, j, acc2);
    }
}

/// A string whose content holds neither a quote nor a backslash ends at the
/// first quote after it.
pub proof fn lemma_scan_string_clean(s: Seq<u8>, i: int, j: int)
    requires
        0 <= i <= j < s.len(),
        forall|q: int| i <= q < j ==> s[q] != QUOTE && s[q] != BACKSLASH,
        s[j] == QUOTE,
    ensures
        spec_scan_string_end(s, i) == Some(j),
    decreases j - i,
{
    if i < j {
        lemma_scan_string_clean(s, i + 1, j);
    }
}

pub open spec fn lit_obj_op() -> Seq<u8> {
    seq![123u8, 34u8, 111u8, 112u8, 34u8, 58u8]
}

pub open spec fn lit_sep_s() -> Seq<u8> {
    seq![44u8, 34u8, 115u8, 34u8, 58u8]
}

pub open spec fn lit_sep_t() -> Seq<u8> {
    seq![44u8, 34u8, 116u8, 34u8, 58u8, 34u8]
}

pub open spec fn lit_sep_d() -> Seq<u8> {
    seq![34u8, 44u8, 34u8, 100u8, 34u8, 58u8]
}

/// The canonical dispatch frame
/// `{"op":<op>,"s":<seq>,"t":"<name>","d":<d>}`.
pub open spec fn spec_frame_bytes(op: u64, seqn: u64, name: Seq<u8>, d: Seq<u8>) -> Seq<u8> {
    lit_obj_op() + spec_u64_digits(op) + lit_sep_s() + spec_u64_digits(seqn) + lit_sep_t() + name
        + lit_sep_d() + d + seq![125u8]
}

/// An event name fit to stand unescaped in a frame.
pub open spec fn spec_valid_event_name(name: Seq<u8>) -> bool {
    forall|q: int| 0 <= q < name.len() ==> name[q] != QUOTE && name[q] != BACKSLASH
}

/// Write the canonical dispatch frame for the given parts.
pub fn dispatch_frame_bytes(op: u64, seqn: u64, name: &Vec<u8>, d: &Vec<u8>) -> (out: Vec<u8>)
    ensures
        out@ == spec_frame_bytes(op, seqn, name@, d@),
{
    let mut out: Vec<u8> = Vec::new();
    out.push(LBRACE);
    out.push(QUOTE);
    out.push(111);
    out.push(112);
    out.push(QUOTE);
    out.push(COLON);
    assert(out@ =~= lit_obj_op());
    let dop = u64_to_digits(op);
    push_bytes(&mut out, &dop);
    out.push(COMMA);
    out.push(QUOTE);
    out.push(115);
    out.push(QUOTE);
    out.push(COLON);
    assert(out@ =~= lit_obj_op() + spec_u64_digits(op) + lit_sep_s());
    let dseq = u64_to_digits(seqn);
    push_bytes(&mut out, &dseq);
    out.push(COMMA);
    out.push(QUOTE);
    out.push(116);
    out.push(QUOTE);
    out.push(COLON);
    out.push(QUOTE);
    assert(out@ =~= lit_obj_op() + spec_u64_digits(op) + lit_sep_s() + spec_u64_digits(seqn)
        + lit_sep_t());
    push_bytes(&mut out, name);
    out.push(QUOTE);
    out.push(COMMA);
    out.push(QUOTE);
    out.push(100);
    out.push(QUOTE);
    out.push(COLON);
    assert(out@ =~= lit_obj_op() + spec_u64_digits(op) + lit_sep_s() + spec_u64_digits(seqn)
        + lit_sep_t() + name@ + lit_sep_d());
    push_bytes(&mut out, d);
    out.push(RBRACE);
    assert(out@ =~= spec_frame_bytes(op, seqn, name@, d@));
    out
}

/// Scanning a canonical dispatch frame recovers exactly the opcode, the
/// sequence number and the event type that were written, whatever the
/// payload bytes are: the scan stops before ever touching them.
#[verifier::rlimit(100)]
pub proof fn lemma_scan_of_dispatch_frame(op: u64, seqn: u64, name: Seq<u8>, d: Seq<u8>)
    requires
        spec_valid_event_name(name),
    ensures
        spec_scan_frame(spec_frame_bytes(op, seqn, name, d)) == Some(
            SpecFrame { op: Some(op), seq: Some(seqn), event_type: Some(name), payload: None },
        ),
{
    let s = spec_frame_bytes(op, seqn, name, d);
    let dop = spec_u64_digits(op);
    let ds = spec_u64_digits(seqn);
    lemma_u64_digits_are_digits(op);
    lemma_u64_digits_are_digits(seqn);
    lemma_digits_val_of_u64(op);
    lemma_digits_val_of_u64(seqn);
    let p2 = 6 + dop.len() as int;
    let p3 = p2 + 5 + ds.len() as int;
    let p4 = p3 + 6 + name.len() as int;
    let p5 = p4 + 6 + d.len() as int;
    assert(s.len() == p5 + 1);
    assert(s[0] == 123 && s[1] == 34 && s[2] == 111 && s[3] == 112 && s[4] == 34 && s[5] == 58);
    assert(forall|q: int| 0 <= q < dop.len() ==> s[6 + q] == dop[q]);
    assert(s[p2] == 44 && s[p2 + 1] == 34 && s[p2 + 2] == 115 && s[p2 + 3] == 34 && s[p2 + 4]
        == 58);
    assert(forall|q: int| 0 <= q < ds.len() ==> s[p2 + 5 + q] == ds[q]);
    assert(s[p3] == 44 && s[p3 + 1] == 34 && s[p3 + 2] == 116 && s[p3 + 3] == 34 && s[p3 + 4] == 58
        && s[p3 + 5] == 34);
    assert(forall|q: int| 0 <= q < name.len() ==> s[p3 + 6 + q] == name[q]);
    assert(s[p4] == 34 && s[p4 + 1] == 44 && s[p4 + 2] == 34 && s[p4 + 3] == 100 && s[p4 + 4] == 34
        && s[p4 + 5] == 58);
    let acc0 = SpecFrame { op: None, seq: None, event_type: None, payload: None };
    let acc1 = SpecFrame { op: Some(op), ..acc0 };
    let acc2 = SpecFrame { seq: Some(seqn), ..acc1 };
    let acc_f = SpecFrame { event_type: Some(name), ..acc2 };
    // keys as they occur in the frame
    assert(key_op().len() == 2 && key_op()[0] == 111 && key_op()[1] == 112);
    assert(key_s().len() == 1 && key_s()[0] == 115);
    assert(key_t().len() == 1 && key_t()[0] == 116);
    // third member: "t" with the event name; the scan completes here
    assert(spec_scan_members(s, p3 + 1, acc2) == Some(acc_f)) by {
        lemma_scan_string_clean(s, p3 + 2, p3 + 3);
        let key = s.subrange(p3 + 2, p3 + 3);
        assert(key =~= key_t());
        assert(key != key_op() && key != key_s());
        lemma_scan_string_clean(s, p3 + 6, p4);
        assert(s.subrange(p3 + 6, p4) =~= name);
        assert(spec_skip_ws(s, p3 + 1) == p3 + 1);
        assert(spec_skip_ws(s, p3 + 4) == p3 + 4);
        assert(spec_skip_ws(s, p3 + 5) == p3 + 5);
        assert(spec_scan_member_value(s, key, p3 + 5, acc2) == Some((acc_f, p4 + 1)));
        assert(spec_scan_done(acc_f));
    }
    // second member: "s" with the sequence number
    assert(spec_scan_members(s, p2 + 1, acc1) == Some(acc_f)) by {
        lemma_scan_string_clean(s, p2 + 2, p2 + 3);
        let key = s.subrange(p2 + 2, p2 + 3);
        assert(key =~= key_s());
        assert(key != key_op());
        assert(s.subrange(p2 + 5, p3) =~= ds);
        lemma_digits_val_bounds(s.subrange(p2 + 5, p3));
        assert(!spec_is_digit(s[p3]));
        lemma_parse_num_digits(s, p2 + 5, p3, 0);
        assert(spec_is_digit(s[p2 + 5]) && !spec_is_ws(s[p2 + 5]));
        assert(spec_skip_ws(s, p2 + 1) == p2 + 1);
        assert(spec_skip_ws(s, p2 + 4) == p2 + 4);
        assert(spec_skip_ws(s, p2 + 5) == p2 + 5);
        assert(spec_parse_num(s, p2 + 5, 0) == Some((seqn, p3)));
        assert(spec_scan_member_value(s, key, p2 + 5, acc1) == Some((acc2, p3)));
        assert(!spec_scan_done(acc2));
        assert(spec_skip_ws(s, p3) == p3);
        assert(s[p3] == COMMA);
    }
    // first member: "op" with the opcode
    assert(spec_scan_members(s, 1, acc0) == Some(acc_f)) by {
        lemma_scan_string_clean(s, 2, 4);
        let key = s.subrange(2, 4);
        assert(key =~= key_op());
        assert(s.subrange(6, p2) =~= dop);
        lemma_digits_val_bounds(s.subrange(6, p2));
        assert(!spec_is_digit(s[p2]));
        lemma_parse_num_digits(s, 6, p2, 0);
        assert(spec_is_digit(s[6]) && !spec_is_ws(s[6]));
        assert(spec_skip_ws(s, 1) == 1);
        assert(spec_skip_ws(s, 5) == 5);
        assert(spec_skip_ws(s, 6) == 6);
        assert(spec_parse_num(s, 6, 0) == Some((op, p2)));
        assert(spec_scan_member_value(s, key, 6, acc0) == Some((acc1, p2)));
        assert(!spec_scan_done(acc1));
        assert(spec_skip_ws(s, p2) == p2);
        assert(s[p2] == COMMA);
    }
    assert(spec_skip_ws(s, 0) == 0);
    assert(s[0] == LBRACE);
}

/// Do the bytes `s[a..b]` spell exactly `key`?
pub fn range_eq(s: &Vec<u8>, a: usize, b: usize, key: &Vec<u8>) -> (r: bool)
    requires
        a <= b <= s@.len(),
    ensures
        r == (s@.subrange(a as int, b as int) == key@),
{
    if b - a != key.len() {
        proof {
            assert(s@.subrange(a as int, b as int).len() == b - a);
        }
        return false;
    }
    let mut k: usize = 0;
    while k < key.len()
        invariant
            a <= b <= s@.len(),
            b - a == key@.len(),
            k <= key@.len(),
            forall|q: int| 0 <= q < k ==> s@.subrange(a as int, b as int)[q] == key@[q],
        decreases key@.len() - k,
    {
        if s[a + k] != key[k] {
            proof {
                assert(s@.subrange(a as int, b as int)[k as int] != key@[k as int]);
            }
            return false;
        }
        k += 1;
    }
    proof {
        assert(s@.subrange(a as int, b as int) =~= key@);
    }
    true
}

/// Walk the members of an object from `i` (just past its `{`), returning
/// the byte range of the value of the first member whose key is `key`.
pub open spec fn spec_scan_field(s: Seq<u8>, i: int, key: Seq<u8>) -> Option<(int, int)>
    decreases s.len() - i,
{
    if i < 0 || i > s.len() {
        None
    } else {
        let j = spec_skip_ws(s, i);
        if j >= s.len() || j < i {
            None
        } else if s[j] != QUOTE {
            None
        } else {
            match spec_scan_string_end(s, j + 1) {
                Some(ke) => {
                    let k = s.subrange(j + 1, ke);
                    let c = spec_skip_ws(s, ke + 1);
                    if c >= s.len() || c < ke + 1 || s[c] != COLON {
                        None
                    } else {
                        let v = spec_skip_ws(s, c + 1);
                        if v < c + 1 {
                            None
                        } else {
                            match spec_skip_value(s, v) {
                                Some(e) => if k == key {
                                    Some((v, e))
                                } else if e <= v || e > s.len() {
                                    None
                                } else {
                                    let w = spec_skip_ws(s, e);
                                    if w >= s.len() || w < e {
                                        None
                                    } else if s[w] == COMMA && w + 1 > i {
                                        spec_scan_field(s, w + 1, key)
                                    } else {
                                        None
                                    }
                                },
                                None => None,
                            }
                        }
                    }
                },
                None => None,
            }
        }
    }
}

/// Executable twin of [`spec_scan_field`].
pub fn scan_field(s: &Vec<u8>, i: usize, key: &Vec<u8>) -> (r: Option<(usize, usize)>)
    requires
        i <= s@.len(),
    ensures
        match r {
            Some((a, b)) => spec_scan_field(s@, i as int, key@) == Some((a as int, b as int)) && a
                <= b <= s@.len(),
            None => spec_scan_field(s@, i as int, key@) is None,
        },
    decreases s@.len() - i,
{
    let j = skip_ws(s, i);
    if j >= s.len() {
        return None;
    }
    if s[j] != QUOTE {
        return None;
    }
    let ke = match scan_string_end(s, j + 1) {
        Some(k) => k,
        None => {
            return None;
        },
    };
    let c = skip_ws(s, ke + 1);
    if c >= s.len() {
        return None;
    }
    if s[c] != COLON {
        return None;
    }
    let v = skip_ws(s, c + 1);
    match skip_value(s, v) {
        Some(e) => {
            if range_eq(s, j + 1, ke, key) {
                Some((v, e))
            } else {
                let w = skip_ws(s, e);
                if w >= s.len() {
                    None
                } else if s[w] == COMMA {
                    scan_field(s, w + 1, key)
                } else {
                    None
                }
            }
        },
        None => None,
    }
}

/// The value of the member `key` of the object spanning `[a, b)`, as a
/// byte range.
pub open spec fn spec_payload_field(s: Seq<u8>, a: int, b: int, key: Seq<u8>) -> Option<(int, int)> {
    if 0 <= a < b <= s.len() && s[a] == LBRACE {
        spec_scan_field(s, a + 1, key)
    } else {
        None
    }
}

/// Executable twin of [`spec_payload_field`].
pub fn payload_field(s: &Vec<u8>, a: usize, b: usize, key: &Vec<u8>) -> (r: Option<(usize, usize)>)
    requires
        a <= b <= s@.len(),
    ensures
        match r {
            Some((x, y)) => spec_payload_field(s@, a as int, b as int, key@) == Some(
                (x as int, y as int),
            ) && x <= y <= s@.len(),
            None => spec_payload_field(s@, a as int, b as int, key@) is None,
        },
{
    if a < b && s[a] == LBRACE {
        scan_field(s, a + 1, key)
    } else {
        None
    }
}

/// A range holding only decimal digits, read as a number.
pub open spec fn spec_u64_value(s: Seq<u8>, a: int, b: int) -> Option<u64> {
    if 0 <= a < b <= s.len() {
        match spec_parse_num(s, a, 0) {
            Some((n, j)) => if j == b {
                Some(n)
            } else {
                None
            },
            None => None,
        }
    } else {
        None
    }
}

/// Executable twin of [`spec_u64_value`].
pub fn u64_value(s: &Vec<u8>, a: usize, b: usize) -> (r: Option<u64>)
    requires
        a <= b <= s@.len(),
    ensures
        r == spec_u64_value(s@, a as int, b as int),
{
    if a >= b {
        return None;
    }
    match parse_num(s, a, 0) {
        Some((n, j)) => if j == b {
            Some(n)
        } else {
            None
        },
        None => None,
    }
}

/// A range holding exactly the literal `true` or `false`.
pub open spec fn spec_bool_value(s: Seq<u8>, a: int, b: int) -> Option<bool> {
    if 0 <= a && b <= s.len() && b - a == 4 && s[a] == 116 && s[a + 1] == 114 && s[a + 2] == 117
        && s[a + 3] == 101 {
        Some(true)
    } else if 0 <= a && b <= s.len() && b - a == 5 && s[a] == 102 && s[a + 1] == 97 && s[a + 2]
        == 108 && s[a + 3] == 115 && s[a + 4] == 101 {
        Some(false)
    } else {
        None
    }
}

/// Executable twin of [`spec_bool_value`].
pub fn bool_value(s: &Vec<u8>, a: usize, b: usize) -> (r: Option<bool>)
    requires
        a <= b <= s@.len(),
    ensures
        r == spec_bool_value(s@, a as int, b as int),
{
    if b - a == 4 && s[a] == 116 && s[a + 1] == 114 && s[a + 2] == 117 && s[a + 3] == 101 {
        Some(true)
    } else if b - a == 5 && s[a] == 102 && s[a + 1] == 97 && s[a + 2] == 108 && s[a + 3] == 115
        && s[a + 4] == 101 {
        Some(false)
    } else {
        None
    }
}

/// The content of a string value spanning `[a, b)`, quotes stripped; the
/// content is handed back raw.
pub open spec fn spec_string_value(s: Seq<u8>, a: int, b: int) -> Option<Seq<u8>> {
    if 0 <= a && a + 2 <= b <= s.len() && s[a] == QUOTE && s[b - 1] == QUOTE {
        Some(s.subrange(a + 1, b - 1))
    } else {
        None
    }
}

/// Executable twin of [`spec_string_value`].
pub fn string_value(s: &Vec<u8>, a: usize, b: usize) -> (r: Option<Vec<u8>>)
    requires
        a <= b <= s@.len(),
    ensures
        match r {
            Some(v) => spec_string_value(s@, a as int, b as int) == Some(v@),
            None => spec_string_value(s@, a as int, b as int) is None,
        },
{
    if b - a >= 2 && s[a] == QUOTE && s[b - 1] == QUOTE {
        Some(copy_range(s, a + 1, b - 1))
    } else {
        None
    }
}

} // verus!
