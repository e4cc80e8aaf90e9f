//! Wire-format shapes of the miner-facing protocol: JSON scalar values,
//! hex encoding, the profile-specific subscribe and extranonce-change
//! responses, and the notification envelope.

use vstd::prelude::*;

use crate::compat::{
    big_endian_job_spec, minimal_notification_spec, uses_legacy_job_format,
    uses_legacy_job_format_spec, MinerProfile,
};

verus! {

/// One scalar slot of a line-delimited JSON-RPC message.
#[derive(Debug, PartialEq)]
pub enum MsgValue {
    Null,
    Bool(bool),
    Num(u64),
    Str(String),
}

impl MsgValue {
    /// The slot holds JSON null.
    pub fn is_null(&self) -> (r: bool)
        ensures
            r == (*self is Null),
    {
        matches!(self, MsgValue::Null)
    }

    /// The slot holds a boolean.
    pub fn is_bool(&self) -> (r: bool)
        ensures
            r == (*self is Bool),
    {
        matches!(self, MsgValue::Bool(_))
    }

    /// The slot holds a number.
    pub fn is_number(&self) -> (r: bool)
        ensures
            r == (*self is Num),
    {
        matches!(self, MsgValue::Num(_))
    }

    /// The slot holds a string.
    pub fn is_string(&self) -> (r: bool)
        ensures
            r == (*self is Str),
    {
        matches!(self, MsgValue::Str(_))
    }

    /// The boolean held, if any.
    pub fn as_bool(&self) -> (r: Option<bool>)
        ensures
            match r {
                Some(b) => *self == MsgValue::Bool(b),
                None => !(*self is Bool),
            },
    {
        match self {
            MsgValue::Bool(b) => Some(*b),
            _ => None,
        }
    }

    /// The number held, if any.
    pub fn as_u64(&self) -> (r: Option<u64>)
        ensures
            match r {
                Some(n) => *self == MsgValue::Num(n),
                None => !(*self is Num),
            },
    {
        match self {
            MsgValue::Num(n) => Some(*n),
            _ => None,
        }
    }

    /// The string held, if any.
    pub fn as_str(&self) -> (r: Option<&str>)
        ensures
            match r {
                Some(s) => *self is Str && s@ == self->Str_0@,
                None => !(*self is Str),
            },
    {
        match self {
            MsgValue::Str(s) => Some(s.as_str()),
            _ => None,
        }
    }
}

/// Hex digit for one value below 16, lower case.
pub open spec fn hex_char_of(n: int) -> char {
    if n == 0 {
        '0'
    } else if n == 1 {
        '1'
    } else if n == 2 {
        '2'
    } else if n == 3 {
        '3'
    } else if n == 4 {
        '4'
    } else if n == 5 {
        '5'
    } else if n == 6 {
        '6'
    } else if n == 7 {
        '7'
    } else if n == 8 {
        '8'
    } else if n == 9 {
        '9'
    } else if n == 10 {
        'a'
    } else if n == 11 {
        'b'
    } else if n == 12 {
        'c'
    } else if n == 13 {
        'd'
    } else if n == 14 {
        'e'
    } else {
        'f'
    }
}

/// Hex encoding of a byte sequence: two digits per byte, high nibble first.
pub open spec fn hex_of_bytes(bs: Seq<u8>) -> Seq<char> {
    Seq::new(
        2 * bs.len(),
        |i: int|
            if i % 2 == 0 {
                hex_char_of(bs[i / 2] as int / 16)
            } else {
                hex_char_of(bs[i / 2] as int % 16)
            },
    )
}

/// One lower-case hex digit as a string slice.
fn hex_digit_str(n: u8) -> (r: &'static str)
    requires
        n < 16,
    ensures
        r@ =~= seq![hex_char_of(n as int)],
{
    match n {
        0 => {
            proof {
                reveal_strlit("0");
            }
            "0"
        },
        1 => {
            proof {
                reveal_strlit("1");
            }
            "1"
        },
        2 => {
            proof {
                reveal_strlit("2");
            }
            "2"
        },
        3 => {
            proof {
                reveal_strlit("3");
            }
            "3"
        },
        4 => {
            proof {
                reveal_strlit("4");
            }
            "4"
        },
        5 => {
            proof {
                reveal_strlit("5");
            }
            "5"
        },
        6 => {
            proof {
                reveal_strlit("6");
            }
            "6"
        },
        7 => {
            proof {
                reveal_strlit("7");
            }
            "7"
        },
        8 => {
            proof {
                reveal_strlit("8");
            }
            "8"
        },
        9 => {
            proof {
                reveal_strlit("9");
            }
            "9"
        },
        10 => {
            proof {
                reveal_strlit("a");
            }
            "a"
        },
        11 => {
            proof {
                reveal_strlit("b");
            }
            "b"
        },
        12 => {
            proof {
                reveal_strlit("c");
            }
            "c"
        },
        13 => {
            proof {
                reveal_strlit("d");
            }
            "d"
        },
        14 => {
            proof {
                reveal_strlit("e");
            }
            "e"
        },
        _ => {
            proof {
                reveal_strlit("f");
            }
            "f"
        },
    }
}

/// Hex encoding of a byte vector, two lower-case digits per byte.
pub fn bytes_to_hex(bs: &Vec<u8>) -> (r: String)
    ensures
        r@ == hex_of_bytes(bs@),
{
    let mut s = String::new();
    let mut i: usize = 0;
    while i < bs.len()
        invariant
            i <= bs@.len(),
            s@ =~= hex_of_bytes(bs@.subrange(0, i as int)),
        decreases bs@.len() - i,
    {
        let b = bs[i];
        s.append(hex_digit_str(b / 16));
        s.append(hex_digit_str(b % 16));
        assert(s@ =~= hex_of_bytes(bs@.subrange(0, i as int + 1)));
        i = i + 1;
    }
    assert(bs@.subrange(0, bs@.len() as int) =~= bs@);
    s
}

/// Byte sequence in reversed order.
pub fn reverse_bytes(bs: &Vec<u8>) -> (r: Vec<u8>)
    ensures
        r@ == bs@.reverse(),
{
    let mut r: Vec<u8> = Vec::new();
    let mut i: usize = bs.len();
    while i > 0
        invariant
            i <= bs@.len(),
            r@.len() == bs@.len() - i,
            forall|k: int| 0 <= k < r@.len() ==> r@[k] == bs@[bs@.len() - 1 - k],
        decreases i,
    {
        i = i - 1;
        r.push(bs[i]);
    }
    assert(r@ =~= bs@.reverse());
    r
}

/// The extranonce hex string owed to a session: empty for a profile with
/// extranonce size 0, else the token's two bytes, big-endian, in hex.
pub open spec fn extranonce_hex_spec(token: u16, size: u8) -> Seq<char> {
    if size == 0 {
        Seq::<char>::empty()
    } else {
        hex_of_bytes(seq![(token / 256) as u8, (token % 256) as u8])
    }
}

/// Encodes a session's extranonce token as the hex string sent on the
/// wire: empty for size 0, four digits for size 2.
pub fn extranonce_hex(token: u16, size: u8) -> (r: String)
    requires
        size == 0 || size == 2,
    ensures
        r@ == extranonce_hex_spec(token, size),
        r@.len() == 2 * size as int,
{
    if size == 0 {
        String::new()
    } else {
        let mut bs: Vec<u8> = Vec::new();
        bs.push((token / 256) as u8);
        bs.push((token % 256) as u8);
        assert(bs@ =~= seq![(token / 256) as u8, (token % 256) as u8]);
        bytes_to_hex(&bs)
    }
}

/// Shape of the subscribe response owed to a profile. Bitmain miners get
/// the legacy 3-element array `[null, extranonce, extranonce2_size]`;
/// everyone else the 2-element `[true, "EthereumStratum/1.0.0"]`.
pub open spec fn subscribe_response_spec(
    r: Seq<MsgValue>,
    p: MinerProfile,
    extranonce: Seq<char>,
) -> bool {
    if p == MinerProfile::Bitmain {
        &&& r.len() == 3
        &&& r[0] is Null
        &&& r[1] matches MsgValue::Str(s) && s@ == extranonce
        &&& r[2] matches MsgValue::Num(n) && n as int == 8 - extranonce.len() / 2
    } else {
        &&& r.len() == 2
        &&& r[0] == MsgValue::Bool(true)
        &&& r[1] matches MsgValue::Str(s) && s@ == "EthereumStratum/1.0.0"@
    }
}

/// Builds the subscribe response for a resolved profile and the session's
/// extranonce hex string.
pub fn subscribe_response(p: MinerProfile, extranonce: &str) -> (r: Vec<MsgValue>)
    requires
        extranonce@.len() % 2 == 0,
        extranonce@.len() <= 16,
    ensures
        subscribe_response_spec(r@, p, extranonce@),
{
    let mut r: Vec<MsgValue> = Vec::new();
    if matches!(p, MinerProfile::Bitmain) {
        let hex_len = extranonce.unicode_len();
        r.push(MsgValue::Null);
        r.push(MsgValue::Str(String::from_str(extranonce)));
        r.push(MsgValue::Num((8 - hex_len / 2) as u64));
    } else {
        r.push(MsgValue::Bool(true));
        r.push(MsgValue::Str(String::from_str("EthereumStratum/1.0.0")));
    }
    r
}

/// Shape of the extranonce-change message parameters: Bitmain miners get
/// `[extranonce, extranonce2_size]`, everyone else `[extranonce]`.
pub open spec fn extranonce_params_spec(
    r: Seq<MsgValue>,
    p: MinerProfile,
    extranonce: Seq<char>,
) -> bool {
    if p == MinerProfile::Bitmain {
        &&& r.len() == 2
        &&& r[0] matches MsgValue::Str(s) && s@ == extranonce
        &&& r[1] matches MsgValue::Num(n) && n as int == 8 - extranonce.len() / 2
    } else {
        &&& r.len() == 1
        &&& r[0] matches MsgValue::Str(s) && s@ == extranonce
    }
}

/// Builds the extranonce-change message parameters for a profile.
pub fn set_extranonce_params(p: MinerProfile, extranonce: &str) -> (r: Vec<MsgValue>)
    requires
        extranonce@.len() % 2 == 0,
        extranonce@.len() <= 16,
    ensures
        extranonce_params_spec(r@, p, extranonce@),
{
    let mut r: Vec<MsgValue> = Vec::new();
    if matches!(p, MinerProfile::Bitmain) {
        let hex_len = extranonce.unicode_len();
        r.push(MsgValue::Str(String::from_str(extranonce)));
        r.push(MsgValue::Num((8 - hex_len / 2) as u64));
    } else {
        r.push(MsgValue::Str(String::from_str(extranonce)));
    }
    r
}

/// An outbound notification. `envelope` says whether the id/jsonrpc
/// envelope fields are included when the line is serialized.
pub struct NotifyMessage {
    pub envelope: bool,
    pub method: String,
    pub params: Vec<MsgValue>,
}

/// Builds a job notification for a profile: IceRiver miners get the
/// minimal shape without the envelope fields, everyone else the full
/// JSON-RPC envelope. The job parameters are passed through unchanged.
pub fn build_notify(p: MinerProfile, method: String, params: Vec<MsgValue>) -> (m: NotifyMessage)
    ensures
        m.envelope == !minimal_notification_spec(p),
        m.method == method,
        m.params == params,
{
    NotifyMessage {
        envelope: !matches!(p, MinerProfile::IceRiver),
        method,
        params,
    }
}

/// Job payload encoding per profile: legacy profiles (Bitmain and the
/// default family) get `[job_id, header_hex]`; IceRiver gets the single
/// hex string; the big-job profile gets the same string with the header
/// bytes in big-endian (reversed) order.
pub open spec fn job_params_spec(
    r: Seq<MsgValue>,
    p: MinerProfile,
    job_id: u64,
    header: Seq<u8>,
) -> bool {
    if uses_legacy_job_format_spec(p) {
        &&& r.len() == 2
        &&& r[0] == MsgValue::Num(job_id)
        &&& r[1] matches MsgValue::Str(s) && s@ == hex_of_bytes(header)
    } else if big_endian_job_spec(p) {
        &&& r.len() == 1
        &&& r[0] matches MsgValue::Str(s) && s@ == hex_of_bytes(header.reverse())
    } else {
        &&& r.len() == 1
        &&& r[0] matches MsgValue::Str(s) && s@ == hex_of_bytes(header)
    }
}

/// Encodes a job's parameters in the profile's wire format.
pub fn encode_job_params(p: MinerProfile, job_id: u64, header: &Vec<u8>) -> (r: Vec<MsgValue>)
    ensures
        job_params_spec(r@, p, job_id, header@),
{
    let mut r: Vec<MsgValue> = Vec::new();
    if uses_legacy_job_format(p) {
        r.push(MsgValue::Num(job_id));
        r.push(MsgValue::Str(bytes_to_hex(header)));
    } else if matches!(p, MinerProfile::BzMinerBigJob) {
        let rev = reverse_bytes(header);
        r.push(MsgValue::Str(bytes_to_hex(&rev)));
    } else {
        r.push(MsgValue::Str(bytes_to_hex(header)));
    }
    r
}

} // verus!
