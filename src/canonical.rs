//! The canonical JSON text that signer and verifier both hash.
//!
//! The text of an envelope is `{"sequence":<decimal>,"message":<payload>}`,
//! exactly, with no whitespace: any byte of difference changes the digest.
use vstd::prelude::*;
use vstd::string::StringSliceAdditionalSpecFns;
use vstd::utf8::encode_utf8;

verus! {

/// The ASCII code of the digit `0`.
pub const DIGIT_ZERO: u8 = 48;

/// The shortest decimal text of `n`, as ASCII bytes.
pub open spec fn decimal(n: nat) -> Seq<u8>
    decreases n,
{
    if n < 10 {
        seq![(DIGIT_ZERO + n) as u8]
    } else {
        decimal(n / 10).push((DIGIT_ZERO + n % 10) as u8)
    }
}

/// The number that a string of ASCII digits spells.
pub open spec fn decimal_value(s: Seq<u8>) -> int
    decreases s.len(),
{
    if s.len() == 0 {
        0
    } else {
        decimal_value(s.drop_last()) * 10 + (s.last() - DIGIT_ZERO)
    }
}

pub open spec fn is_digit(b: u8) -> bool {
    DIGIT_ZERO <= b <= DIGIT_ZERO + 9
}

/// Every byte of `decimal(n)` is a digit, there is at least one, and they spell `n`.
pub proof fn lemma_decimal(n: nat)
    ensures
        decimal(n).len() >= 1,
        forall|i: int| 0 <= i < decimal(n).len() ==> is_digit(#[trigger] decimal(n)[i]),
        decimal_value(decimal(n)) == n,
    decreases n,
{
    if n < 10 {
        assert(decimal(n).drop_last() =~= Seq::<u8>::empty());
        assert(decimal_value(Seq::<u8>::empty()) == 0);
    } else {
        lemma_decimal(n / 10);
        assert(decimal(n).drop_last() =~= decimal(n / 10));
        assert(decimal(n).last() == (DIGIT_ZERO + n % 10) as u8);
        assert(n == (n / 10) * 10 + n % 10);
        assert(decimal_value(decimal(n)) == decimal_value(decimal(n / 10)) * 10 + (n % 10));
    }
}

/// Distinct numbers have distinct decimal texts.
pub proof fn lemma_decimal_injective(a: nat, b: nat)
    requires
        decimal(a) == decimal(b),
    ensures
        a == b,
{
    lemma_decimal(a);
    lemma_decimal(b);
}

/// Appends the decimal text of `n` to `out`.
pub fn write_decimal(n: u64, out: &mut Vec<u8>)
    ensures
        final(out)@ == old(out)@ + decimal(n as nat),
    decreases n,
{
    if n >= 10 {
        write_decimal(n / 10, out);
    }
    out.push(DIGIT_ZERO + (n % 10) as u8);
    assert(out@ =~= old(out)@ + decimal(n as nat));
}

/// Appends `bytes` to `out`.
pub fn append_bytes(out: &mut Vec<u8>, bytes: &[u8])
    ensures
        final(out)@ == old(out)@ + bytes@,
{
    let mut i: usize = 0;
    while i < bytes.len()
        invariant
            i <= bytes@.len(),
            out@ == old(out)@ + bytes@.subrange(0, i as int),
        decreases bytes@.len() - i,
    {
        out.push(bytes[i]);
        i = i + 1;
        assert(out@ =~= old(out)@ + bytes@.subrange(0, i as int));
    }
    assert(bytes@.subrange(0, i as int) =~= bytes@);
}

/// A lower-case hexadecimal digit.
pub open spec fn hex_digit(n: u8) -> u8 {
    if n < 10 {
        (DIGIT_ZERO + n) as u8
    } else {
        (87 + n) as u8
    }
}

/// How one byte of a string's UTF-8 text is written inside a JSON string:
/// the quote, the backslash and the control bytes are escaped, every other
/// byte is written as it is.
pub open spec fn json_escape_byte(b: u8) -> Seq<u8> {
    if b == 0x22 {
        seq![0x5Cu8, 0x22]
    } else if b == 0x5C {
        seq![0x5Cu8, 0x5C]
    } else if b == 0x08 {
        seq![0x5Cu8, 0x62]
    } else if b == 0x0C {
        seq![0x5Cu8, 0x66]
    } else if b == 0x0A {
        seq![0x5Cu8, 0x6E]
    } else if b == 0x0D {
        seq![0x5Cu8, 0x72]
    } else if b == 0x09 {
        seq![0x5Cu8, 0x74]
    } else if b < 0x20 {
        seq![0x5Cu8, 0x75, 0x30, 0x30, hex_digit(b / 16), hex_digit(b % 16)]
    } else {
        seq![b]
    }
}

/// The escaped form of a byte string, byte by byte.
pub open spec fn json_escape_bytes(bytes: Seq<u8>) -> Seq<u8>
    decreases bytes.len(),
{
    if bytes.len() == 0 {
        Seq::empty()
    } else {
        json_escape_bytes(bytes.drop_last()) + json_escape_byte(bytes.last())
    }
}

/// The JSON string literal of a text: its escaped UTF-8 bytes in quotes.
pub open spec fn json_string_spec(text: Seq<u8>) -> Seq<u8> {
    seq![0x22u8] + json_escape_bytes(text) + seq![0x22u8]
}

#[verifier::external_type_specification]
#[verifier::external_body]
pub struct ExJsonError(serde_json::Error);

/// Relies on `serde_json::to_vec` on a `str`: the quoted string, with `"`,
/// `\` and the control bytes escaped (`\b \f \n \r \t`, else `\u00xx`);
/// writing a `str` into a vector never fails.
#[verifier::external_body]
fn json_string(s: &str) -> (r: Result<Vec<u8>, serde_json::Error>)
    ensures
        match r {
            Ok(v) => v@ == json_string_spec(encode_utf8(s@)),
            Err(_) => false,
        },
{
    serde_json::to_vec(s)
}

/// A value with one canonical JSON text, the form in which it is signed.
pub trait CanonicalJson {
    /// The canonical text, or `None` where the value has none.
    spec fn canonical_json(&self) -> Option<Seq<u8>>;

    /// Appends the canonical text to `out`; returns whether there is one.
    fn write_json(&self, out: &mut Vec<u8>) -> (ok: bool)
        ensures
            ok == self.canonical_json() is Some,
            ok ==> final(out)@ == old(out)@ + self.canonical_json()->0,
    ;
}

/// The status message payload: `{"message":<string>}`.
pub struct Message {
    pub message: String,
}

impl CanonicalJson for Message {
    open spec fn canonical_json(&self) -> Option<Seq<u8>> {
        Some(
            "{\"message\":".spec_bytes() + json_string_spec(encode_utf8(self.message@))
                + "}".spec_bytes(),
        )
    }

    fn write_json(&self, out: &mut Vec<u8>) -> (ok: bool) {
        match json_string(self.message.as_str()) {
            Ok(j) => {
                append_bytes(out, "{\"message\":".as_bytes());
                append_bytes(out, j.as_slice());
                append_bytes(out, "}".as_bytes());
                proof {
                    assert(final(out)@ =~= old(out)@ + self.canonical_json()->0);
                }
                true
            },
            Err(_) => false,
        }
    }
}

/// The active flag payload: `{"active":true}` or `{"active":false}`.
pub struct Active {
    pub active: bool,
}

/// The JSON literal of a boolean.
pub open spec fn json_bool(b: bool) -> Seq<u8> {
    if b {
        "true".spec_bytes()
    } else {
        "false".spec_bytes()
    }
}

impl CanonicalJson for Active {
    open spec fn canonical_json(&self) -> Option<Seq<u8>> {
        Some("{\"active\":".spec_bytes() + json_bool(self.active) + "}".spec_bytes())
    }

    fn write_json(&self, out: &mut Vec<u8>) -> (ok: bool) {
        append_bytes(out, "{\"active\":".as_bytes());
        if self.active {
            append_bytes(out, "true".as_bytes());
        } else {
            append_bytes(out, "false".as_bytes());
        }
        append_bytes(out, "}".as_bytes());
        proof {
            assert(final(out)@ =~= old(out)@ + self.canonical_json()->0);
        }
        true
    }
}

/// The payload that records a tick of the given type: `{"ty":<decimal>}`.
pub struct TriggerTick {
    pub ty: u8,
}

impl CanonicalJson for TriggerTick {
    open spec fn canonical_json(&self) -> Option<Seq<u8>> {
        Some("{\"ty\":".spec_bytes() + decimal(self.ty as nat) + "}".spec_bytes())
    }

    fn write_json(&self, out: &mut Vec<u8>) -> (ok: bool) {
        append_bytes(out, "{\"ty\":".as_bytes());
        write_decimal(self.ty as u64, out);
        append_bytes(out, "}".as_bytes());
        proof {
            assert(final(out)@ =~= old(out)@ + self.canonical_json()->0);
        }
        true
    }
}

/// A payload bound to the sequence number at which it is signed.
pub struct Authentication<T> {
    pub sequence: u64,
    pub message: T,
}

/// The canonical text of an envelope, given the text of its payload.
pub open spec fn envelope_json(sequence: nat, payload: Seq<u8>) -> Seq<u8> {
    "{\"sequence\":".spec_bytes() + decimal(sequence) + ",\"message\":".spec_bytes() + payload
        + "}".spec_bytes()
}

impl<T: CanonicalJson> CanonicalJson for Authentication<T> {
    open spec fn canonical_json(&self) -> Option<Seq<u8>> {
        match self.message.canonical_json() {
            Some(p) => Some(envelope_json(self.sequence as nat, p)),
            None => None,
        }
    }

    fn write_json(&self, out: &mut Vec<u8>) -> (ok: bool) {
        append_bytes(out, "{\"sequence\":".as_bytes());
        write_decimal(self.sequence, out);
        append_bytes(out, ",\"message\":".as_bytes());
        let ok = self.message.write_json(out);
        if ok {
            append_bytes(out, "}".as_bytes());
            proof {
                assert(final(out)@ =~= old(out)@ + self.canonical_json()->0);
            }
        }
        ok
    }
}

/// The envelope text determines the sequence number: two envelopes around one
/// payload have the same text only when their sequence numbers agree.
pub proof fn lemma_envelope_sequence_injective(a: nat, b: nat, payload: Seq<u8>)
    requires
        envelope_json(a, payload) == envelope_json(b, payload),
    ensures
        a == b,
{
    let open = "{\"sequence\":".spec_bytes();
    let sep = ",\"message\":".spec_bytes();
    let close = "}".spec_bytes();
    let da = decimal(a);
    let db = decimal(b);
    let ea = envelope_json(a, payload);
    let eb = envelope_json(b, payload);
    lemma_decimal(a);
    lemma_decimal(b);
    reveal_strlit(",\"message\":");
    vstd::string::is_ascii_spec_bytes(",\"message\":");
    assert(sep.len() == 11 && sep[0] == 44u8);
    assert(ea =~= open + (da + (sep + payload + close)));
    assert(eb =~= open + (db + (sep + payload + close)));
    let k: int = open.len() as int;
    if da.len() == db.len() {
        assert(da =~= ea.subrange(k, k + da.len() as int));
        assert(db =~= eb.subrange(k, k + db.len() as int));
        lemma_decimal_injective(a, b);
    } else if da.len() < db.len() {
        assert(ea[k + da.len() as int] == sep[0]);
        assert(eb[k + da.len() as int] == db[da.len() as int]);
    } else {
        assert(eb[k + db.len() as int] == sep[0]);
        assert(ea[k + db.len() as int] == da[db.len() as int]);
    }
}

} // verus!
