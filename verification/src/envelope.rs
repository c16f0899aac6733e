//! The wire artifact: a response envelope carrying an outcome's fields, a
//! timestamp, a cache flag, a cost, and an integrity hash over the canonical
//! byte rendering of every other field.

use vstd::prelude::*;
use crate::hashing::{hex_of, sha256, sha256_of, to_hex};
use crate::json::{
    bool_bytes, json_of, json_string, write_bool, write_json, write_json_str, JsonValue,
};
use crate::numfmt::{dec_digits, frac9_digits, push_dec_u64, push_frac9};
use crate::outcome::ProcessResponse;
use crate::string_eq;

verus! {

/// Elapsed execution time, split into whole seconds and the nanoseconds of
/// the started second. The split avoids any rounding: the canonical rendering
/// is exact.
pub struct Cost {
    pub secs: u64,
    pub nanos: u32,
}

impl Cost {
    /// The nanosecond part names a fraction of one second.
    pub open spec fn wf(self) -> bool {
        self.nanos < 1_000_000_000
    }

    /// A zero cost, used where no unit ran.
    pub fn zero() -> (c: Cost)
        ensures
            c.secs == 0,
            c.nanos == 0,
            c.wf(),
    {
        Cost { secs: 0, nanos: 0 }
    }
}

/// The canonical rendering of a cost: seconds, a dot, and exactly nine
/// fractional digits.
pub open spec fn cost_bytes(c: Cost) -> Seq<u8> {
    dec_digits(c.secs as nat) + seq![0x2eu8] + frac9_digits(c.nanos)
}

/// The canonical rendering of the error list: a JSON array of strings.
pub open spec fn errors_bytes(errs: Seq<String>) -> Seq<u8> {
    seq![0x5bu8] + error_items(errs) + seq![0x5du8]
}

/// The comma-separated JSON string literals of the error list.
pub open spec fn error_items(errs: Seq<String>) -> Seq<u8>
    decreases errs,
{
    if errs.len() == 0 {
        Seq::empty()
    } else if errs.len() == 1 {
        json_string(errs.last()@)
    } else {
        error_items(errs.drop_last()) + seq![0x2cu8] + json_string(errs.last()@)
    }
}

/// The canonical rendering of a timestamp: the decimal seconds since the Unix
/// epoch, as a JSON string.
pub open spec fn timestamp_bytes(ts: u64) -> Seq<u8> {
    seq![0x22u8] + dec_digits(ts as nat) + seq![0x22u8]
}

/// The members of the envelope object that enter the hash, in their fixed
/// order: code, message, data, errors, timestamp, cache, cost. This is the
/// canonicalization rule: any party rendering the same seven values gets the
/// same bytes.
pub open spec fn fields_bytes(
    code: u16,
    message: String,
    data: JsonValue,
    errors: Seq<String>,
    timestamp: u64,
    cache: bool,
    cost: Cost,
) -> Seq<u8> {
    json_string("code"@) + seq![0x3au8] + dec_digits(code as nat) + seq![0x2cu8] + json_string(
        "message"@,
    ) + seq![0x3au8] + json_string(message@) + seq![0x2cu8] + json_string("data"@) + seq![0x3au8]
        + json_of(data) + seq![0x2cu8] + json_string("errors"@) + seq![0x3au8] + errors_bytes(
        errors,
    ) + seq![0x2cu8] + json_string("timestamp"@) + seq![0x3au8] + timestamp_bytes(timestamp) + seq![
        0x2cu8,
    ] + json_string("cache"@) + seq![0x3au8] + bool_bytes(cache) + seq![0x2cu8] + json_string(
        "cost"@,
    ) + seq![0x3au8] + cost_bytes(cost)
}

/// The response envelope. `hash` is computed over the canonical bytes of the
/// seven other fields and is not itself part of the hashed payload.
pub struct Envelope {
    pub code: u16,
    pub message: String,
    pub data: JsonValue,
    pub errors: Vec<String>,
    pub timestamp: u64,
    pub cache: bool,
    pub cost: Cost,
    pub hash: String,
}

impl Envelope {
    /// The canonical hash input: a JSON object holding the seven non-hash
    /// fields, in their fixed order.
    pub open spec fn canonical_of(self) -> Seq<u8> {
        seq![0x7bu8] + fields_bytes(
            self.code,
            self.message,
            self.data,
            self.errors@,
            self.timestamp,
            self.cache,
            self.cost,
        ) + seq![0x7du8]
    }

    /// The wire body: the canonical object with the hash appended as its
    /// eighth and last member.
    pub open spec fn wire_of(self) -> Seq<u8> {
        seq![0x7bu8] + fields_bytes(
            self.code,
            self.message,
            self.data,
            self.errors@,
            self.timestamp,
            self.cache,
            self.cost,
        ) + seq![0x2cu8] + json_string("hash"@) + seq![0x3au8] + json_string(self.hash@) + seq![
            0x7du8,
        ]
    }

    /// The stored hash is the digest of the canonical bytes, in lowercase
    /// hexadecimal text: recomputing it over the seven non-hash fields, with
    /// the same canonicalization rule, reproduces it exactly.
    pub open spec fn hash_ok(self) -> bool {
        self.hash@ == hex_of(sha256_of(self.canonical_of()))
    }

    /// Builds an envelope from the given fields, stamping it with the hash of
    /// its canonical bytes. `cache` is always `false`: this core computes
    /// every result afresh, there is no caching path.
    pub fn build(
        code: u16,
        message: String,
        data: JsonValue,
        errors: Vec<String>,
        timestamp: u64,
        cost: Cost,
    ) -> (e: Envelope)
        ensures
            e.code == code,
            e.message == message,
            e.data == data,
            e.errors == errors,
            e.timestamp == timestamp,
            e.cache == false,
            e.cost == cost,
            e.hash_ok(),
    {
        let mut e = Envelope {
            code,
            message,
            data,
            errors,
            timestamp,
            cache: false,
            cost,
            hash: String::new(),
        };
        let canon = e.canonical_bytes();
        let digest = sha256(canon.as_slice());
        e.hash = to_hex(digest.as_slice());
        e
    }

    /// The envelope for an outcome a unit returned: its fields verbatim, the
    /// measured cost, the given timestamp, and the hash stamp.
    pub fn from_outcome(outcome: ProcessResponse, cost: Cost, timestamp: u64) -> (e: Envelope)
        ensures
            e.code == outcome.code,
            e.message == outcome.message,
            e.data == outcome.data,
            e.errors == outcome.errors,
            e.timestamp == timestamp,
            e.cache == false,
            e.cost == cost,
            e.hash_ok(),
    {
        Envelope::build(outcome.code, outcome.message, outcome.data, outcome.errors, timestamp, cost)
    }

    /// The envelope for a failed resolution: no unit ran, so the cost is
    /// zero, the code is 404, and the single error names the condition.
    pub fn not_found(timestamp: u64) -> (e: Envelope)
        ensures
            e.code == 404,
            e.message@ == "Not Found"@,
            (e.data matches JsonValue::Obj(members) && members@ == Seq::<(
                String,
                JsonValue,
            )>::empty()),
            e.errors@.len() == 1 && e.errors@[0]@ == "Process not found"@,
            e.timestamp == timestamp,
            e.cache == false,
            e.cost.secs == 0 && e.cost.nanos == 0,
            e.hash_ok(),
    {
        let mut errors: Vec<String> = Vec::new();
        errors.push("Process not found".to_owned());
        Envelope::build(
            404,
            "Not Found".to_owned(),
            JsonValue::Obj(Vec::new()),
            errors,
            timestamp,
            Cost::zero(),
        )
    }

    /// Recomputes the canonical hash over the seven non-hash fields and
    /// compares it with the stored hash.
    pub fn verify_hash(&self) -> (ok: bool)
        ensures
            ok == self.hash_ok(),
    {
        let canon = self.canonical_bytes();
        let digest = sha256(canon.as_slice());
        let recomputed = to_hex(digest.as_slice());
        string_eq(&recomputed, &self.hash)
    }

    /// The canonical hash input of this envelope, as bytes.
    pub fn canonical_bytes(&self) -> (r: Vec<u8>)
        ensures
            r@ == self.canonical_of(),
    {
        let mut out: Vec<u8> = Vec::new();
        out.push(0x7b);
        write_fields(
            self.code,
            &self.message,
            &self.data,
            &self.errors,
            self.timestamp,
            self.cache,
            &self.cost,
            &mut out,
        );
        out.push(0x7d);
        out
    }

    /// The complete wire body of this envelope, all eight fields.
    pub fn wire_bytes(&self) -> (r: Vec<u8>)
        ensures
            r@ == self.wire_of(),
    {
        let mut out: Vec<u8> = Vec::new();
        out.push(0x7b);
        write_fields(
            self.code,
            &self.message,
            &self.data,
            &self.errors,
            self.timestamp,
            self.cache,
            &self.cost,
            &mut out,
        );
        out.push(0x2c);
        write_json_str("hash", &mut out);
        out.push(0x3a);
        write_json_str(self.hash.as_str(), &mut out);
        out.push(0x7d);
        out
    }
}

/// Appends the canonical rendering of the error list to `out`.
fn write_errors(errors: &Vec<String>, out: &mut Vec<u8>)
    ensures
        final(out)@ == old(out)@ + errors_bytes(errors@),
{
    let ghost start = out@;
    out.push(0x5b);
    let mut i: usize = 0;
    while i < errors.len()
        invariant
            0 <= i <= errors@.len(),
            out@ == start + seq![0x5bu8] + error_items(errors@.take(i as int)),
        decreases errors@.len() - i,
    {
        if i > 0 {
            out.push(0x2c);
        }
        write_json_str(errors[i].as_str(), out);
        proof {
            assert(errors@.take(i + 1).drop_last() =~= errors@.take(i as int));
            assert(errors@.take(i + 1).last() == errors@[i as int]);
            assert(out@ =~= start + seq![0x5bu8] + error_items(errors@.take(i + 1)));
        }
        i = i + 1;
    }
    out.push(0x5d);
    proof {
        assert(errors@.take(errors@.len() as int) =~= errors@);
    }
}

/// Appends the canonical rendering of a cost to `out`.
fn write_cost(cost: &Cost, out: &mut Vec<u8>)
    ensures
        final(out)@ == old(out)@ + cost_bytes(*cost),
{
    push_dec_u64(cost.secs, out);
    out.push(0x2e);
    push_frac9(cost.nanos, out);
}

/// Appends the seven hashed members, in canonical order, to `out`.
#[verifier::rlimit(60)]
fn write_fields(
    code: u16,
    message: &String,
    data: &JsonValue,
    errors: &Vec<String>,
    timestamp: u64,
    cache: bool,
    cost: &Cost,
    out: &mut Vec<u8>,
)
    ensures
        final(out)@ == old(out)@ + fields_bytes(
            code,
            *message,
            *data,
            errors@,
            timestamp,
            cache,
            *cost,
        ),
{
    write_json_str("code", out);
    out.push(0x3a);
    push_dec_u64(code as u64, out);
    out.push(0x2c);
    write_json_str("message", out);
    out.push(0x3a);
    write_json_str(message.as_str(), out);
    out.push(0x2c);
    write_json_str("data", out);
    out.push(0x3a);
    write_json(data, out);
    out.push(0x2c);
    write_json_str("errors", out);
    out.push(0x3a);
    write_errors(errors, out);
    out.push(0x2c);
    write_json_str("timestamp", out);
    out.push(0x3a);
    out.push(0x22);
    push_dec_u64(timestamp, out);
    out.push(0x22);
    out.push(0x2c);
    write_json_str("cache", out);
    out.push(0x3a);
    write_bool(cache, out);
    out.push(0x2c);
    write_json_str("cost", out);
    out.push(0x3a);
    write_cost(cost, out);
    proof {
        assert(final(out)@ =~= old(out)@ + fields_bytes(
            code,
            *message,
            *data,
            errors@,
            timestamp,
            cache,
            *cost,
        ));
    }
}

} // verus!
