//! Attestations: a record of an operation (qubits, iterations, outcome) bound
//! to the SHA-256 digest of its data and to the time it was made, with an
//! identifier derived from both and a signature over every field.

use vstd::prelude::*;
use vstd::slice::slice_to_vec;
use vstd::seq_lib::lemma_concat_associative;
use vstd::utf8::encode_utf8;
use std::time::SystemTime;
use crate::clock::{
    epoch_reading, since_unix_epoch, system_time_now, time_error_text, whole_seconds,
};
use crate::digest::{hex_encode, hex_lower, lemma_hex_lower_len, sha256, sha256_of};
use crate::text::{
    bool_text, decimal, json_escape, json_escaped_char, lemma_bool_round_trip,
    lemma_decimal_round_trip, lemma_json_escape_concat, lemma_json_string_round_trip,
    lemma_read_literal, push_bool, push_decimal, push_json_string, read_bool, read_decimal,
    read_json_string, read_literal,
};

verus! {

/// Errors of attestations.
#[derive(Debug)]
pub enum AttestationError {
    /// The attestation could not be made.
    GenerationError(String),
    /// The attestation did not verify.
    VerificationError(String),
    /// The attested data is not acceptable.
    InvalidData(String),
    /// The attestation is older than allowed.
    Expired,
}

/// Result of attestation operations.
pub type AttestationResult<T> = Result<T, AttestationError>;

/// An attestation of one operation.
#[derive(Debug, Clone)]
pub struct Attestation {
    /// Identifier of the attestation.
    pub id: String,
    /// Seconds since the Unix epoch when the attestation was made.
    pub timestamp: u64,
    /// Hexadecimal SHA-256 digest of the attested data.
    pub data_hash: String,
    /// Signature over the identifier, the digest and the time.
    pub signature: String,
    /// Number of qubits used in the operation.
    pub num_qubits: usize,
    /// Number of iterations performed.
    pub iterations: u64,
    /// Whether the operation succeeded.
    pub success: bool,
}

/// An attestation with its texts as character sequences.
pub struct AttestationView {
    pub id: Seq<char>,
    pub timestamp: u64,
    pub data_hash: Seq<char>,
    pub signature: Seq<char>,
    pub num_qubits: usize,
    pub iterations: u64,
    pub success: bool,
}

impl View for Attestation {
    type V = AttestationView;

    open spec fn view(&self) -> AttestationView {
        AttestationView {
            id: self.id@,
            timestamp: self.timestamp,
            data_hash: self.data_hash@,
            signature: self.signature@,
            num_qubits: self.num_qubits,
            iterations: self.iterations,
            success: self.success,
        }
    }
}

/// The digest text of attested data: SHA-256 in lowercase hexadecimal.
pub open spec fn data_hash_text(data: Seq<u8>) -> Seq<char> {
    hex_lower(sha256_of(data))
}

/// The identifier for a digest text and a time: the first 16 bytes of the
/// SHA-256 digest of the digest text followed by the time in decimal, in
/// lowercase hexadecimal.
pub open spec fn id_text(data_hash: Seq<char>, timestamp: u64) -> Seq<char> {
    hex_lower(sha256_of(encode_utf8(data_hash + decimal(timestamp as nat))).take(16))
}

/// The text that a signature is made over: every field of the attestation
/// but the signature, as `id:data_hash:timestamp:num_qubits:iterations:success`.
pub open spec fn signed_message(
    id: Seq<char>,
    data_hash: Seq<char>,
    timestamp: u64,
    num_qubits: usize,
    iterations: u64,
    success: bool,
) -> Seq<char> {
    id + ":"@ + data_hash + ":"@ + decimal(timestamp as nat) + ":"@ + decimal(num_qubits as nat)
        + ":"@ + decimal(iterations as nat) + ":"@ + bool_text(success)
}

/// The signature over every other field of an attestation: the SHA-256
/// digest, in lowercase hexadecimal, of `signed_message`.
pub open spec fn signature_text(
    id: Seq<char>,
    data_hash: Seq<char>,
    timestamp: u64,
    num_qubits: usize,
    iterations: u64,
    success: bool,
) -> Seq<char> {
    hex_lower(sha256_of(encode_utf8(signed_message(id, data_hash, timestamp, num_qubits, iterations, success))))
}

/// The attestation of `data` made at `timestamp`.
pub open spec fn issued(
    data: Seq<u8>,
    num_qubits: usize,
    iterations: u64,
    success: bool,
    timestamp: u64,
) -> AttestationView {
    let data_hash = data_hash_text(data);
    let id = id_text(data_hash, timestamp);
    AttestationView {
        id,
        timestamp,
        data_hash,
        signature: signature_text(id, data_hash, timestamp, num_qubits, iterations, success),
        num_qubits,
        iterations,
        success,
    }
}

/// The signature of an attestation is the one its other fields call for.
pub open spec fn signature_valid(v: AttestationView) -> bool {
    v.signature == signature_text(v.id, v.data_hash, v.timestamp, v.num_qubits, v.iterations, v.success)
}

/// An attestation made at `timestamp` is expired at `now` when more than
/// `max_age_secs` seconds have passed; a time before `timestamp` counts as
/// none passed.
pub open spec fn expired_at(timestamp: u64, now: u64, max_age_secs: u64) -> bool {
    (if now >= timestamp { now - timestamp } else { 0 }) > max_age_secs
}

/// The seconds since the Unix epoch of a clock reading; a reading before the
/// epoch (`None`) counts as zero.
pub open spec fn reading_secs(reading: Option<u64>) -> u64 {
    match reading {
        Some(secs) => secs,
        None => 0,
    }
}

/// The JSON object text of an attestation; its texts are written as JSON
/// strings, with quotes, backslashes and control characters escaped.
pub open spec fn json_text(v: AttestationView) -> Seq<char> {
    "{\"id\":\""@ + json_escape(v.id)
        + "\",\"timestamp\":"@ + decimal(v.timestamp as nat)
        + ",\"data_hash\":\""@ + json_escape(v.data_hash)
        + "\",\"signature\":\""@ + json_escape(v.signature)
        + "\",\"num_qubits\":"@ + decimal(v.num_qubits as nat)
        + ",\"iterations\":"@ + decimal(v.iterations as nat)
        + ",\"success\":"@ + bool_text(v.success)
        + "}"@
}

impl Attestation {
    /// Makes an attestation of `data`, stamped with the wall clock's seconds
    /// since the Unix epoch; an error where the clock reads before the epoch.
    pub fn new(
        data: &[u8],
        num_qubits: usize,
        iterations: u64,
        success: bool,
    ) -> (res: AttestationResult<Self>)
        ensures
            res matches Ok(a) ==> a@ == issued(data@, num_qubits, iterations, success, a.timestamp),
            res matches Ok(a) ==> a.data_hash@ == hex_lower(sha256_of(data@)),
            res matches Ok(a) ==> exists|t: SystemTime| epoch_reading(t) == Some(a.timestamp),
            res matches Ok(a) ==> a.data_hash@.len() == 64 && a.id@.len() == 32
                && a.signature@.len() == 64,
            res matches Err(e) ==> e is GenerationError,
            res is Err ==> exists|t: SystemTime| epoch_reading(t) is None,
    {
        let now = system_time_now();
        match since_unix_epoch(&now) {
            Ok(elapsed) => {
                let timestamp = whole_seconds(&elapsed);
                assert(epoch_reading(now) == Some(timestamp));
                Ok(Self::issued_at(data, num_qubits, iterations, success, timestamp))
            },
            Err(e) => {
                assert(epoch_reading(now) is None);
                Err(AttestationError::GenerationError(time_error_text(&e)))
            },
        }
    }

    /// Makes the attestation of `data` for the time `timestamp`, in seconds
    /// since the Unix epoch.
    pub fn issued_at(
        data: &[u8],
        num_qubits: usize,
        iterations: u64,
        success: bool,
        timestamp: u64,
    ) -> (a: Self)
        ensures
            a@ == issued(data@, num_qubits, iterations, success, timestamp),
            a.data_hash@ == hex_lower(sha256_of(data@)),
            a.id@ == hex_lower(sha256_of(encode_utf8(a.data_hash@ + decimal(timestamp as nat))).take(16)),
            a.signature@ == hex_lower(sha256_of(encode_utf8(
                signed_message(a.id@, a.data_hash@, timestamp, num_qubits, iterations, success),
            ))),
            a.timestamp == timestamp,
            a.num_qubits == num_qubits,
            a.iterations == iterations,
            a.success == success,
            a.data_hash@.len() == 64,
            a.id@.len() == 32,
            a.signature@.len() == 64,
    {
        let data_hash = Self::compute_hash(data);
        let id = Self::generate_id(data_hash.as_str(), timestamp);
        let signature = Self::generate_signature(
            id.as_str(),
            data_hash.as_str(),
            timestamp,
            num_qubits,
            iterations,
            success,
        );
        Attestation { id, timestamp, data_hash, signature, num_qubits, iterations, success }
    }

    /// The digest text of `data`.
    fn compute_hash(data: &[u8]) -> (res: String)
        ensures
            res@ == data_hash_text(data@),
            res@ == hex_lower(sha256_of(data@)),
            res@.len() == 64,
    {
        let digest = sha256(data);
        proof { lemma_hex_lower_len(digest@); }
        hex_encode(digest.as_slice())
    }

    /// The identifier for a digest text and a time.
    fn generate_id(data_hash: &str, timestamp: u64) -> (res: String)
        ensures
            res@ == id_text(data_hash@, timestamp),
            res@.len() == 32,
    {
        let mut input = data_hash.to_owned();
        push_decimal(&mut input, timestamp);
        let digest = sha256(input.as_str().as_bytes());
        let prefix = &digest.as_slice()[0..16];
        proof { lemma_hex_lower_len(prefix@); }
        hex_encode(prefix)
    }

    /// The signature over every other field of an attestation.
    fn generate_signature(
        id: &str,
        data_hash: &str,
        timestamp: u64,
        num_qubits: usize,
        iterations: u64,
        success: bool,
    ) -> (res: String)
        ensures
            res@ == signature_text(id@, data_hash@, timestamp, num_qubits, iterations, success),
            res@ == hex_lower(sha256_of(encode_utf8(
                signed_message(id@, data_hash@, timestamp, num_qubits, iterations, success),
            ))),
            res@.len() == 64,
    {
        let mut input = id.to_owned();
        input.append(":");
        input.append(data_hash);
        input.append(":");
        push_decimal(&mut input, timestamp);
        input.append(":");
        push_decimal(&mut input, num_qubits as u64);
        input.append(":");
        push_decimal(&mut input, iterations);
        input.append(":");
        push_bool(&mut input, success);
        let digest = sha256(input.as_str().as_bytes());
        proof { lemma_hex_lower_len(digest@); }
        hex_encode(digest.as_slice())
    }

    /// Checks the signature against every other field: `Ok(true)` where it
    /// matches, an error otherwise.
    pub fn verify(&self) -> (res: AttestationResult<bool>)
        ensures
            res is Ok <==> signature_valid(self@),
            res is Ok <==> self.signature@ == hex_lower(sha256_of(encode_utf8(signed_message(
                self.id@,
                self.data_hash@,
                self.timestamp,
                self.num_qubits,
                self.iterations,
                self.success,
            )))),
            res matches Ok(b) ==> b,
            res matches Err(e) ==> (e matches AttestationError::VerificationError(m)
                && m@ == "Signature mismatch"@),
    {
        let expected = Self::generate_signature(
            self.id.as_str(),
            self.data_hash.as_str(),
            self.timestamp,
            self.num_qubits,
            self.iterations,
            self.success,
        );
        if !(self.signature == expected) {
            return Err(AttestationError::VerificationError("Signature mismatch".to_owned()));
        }
        Ok(true)
    }

    /// Whether the attestation is older than `max_age_secs` by the wall clock.
    /// The answer rests on the clock; a clock before the Unix epoch reads as
    /// zero.
    pub fn is_expired(&self, max_age_secs: u64) -> (res: bool)
        ensures
            exists|t: SystemTime|
                res == expired_at(self.timestamp, reading_secs(epoch_reading(t)), max_age_secs),
    {
        let now = system_time_now();
        let reading = match since_unix_epoch(&now) {
            Ok(elapsed) => Some(whole_seconds(&elapsed)),
            Err(_) => None,
        };
        assert(reading == epoch_reading(now));
        self.is_expired_at_reading(reading, max_age_secs)
    }

    /// Whether the attestation is older than `max_age_secs` by a clock
    /// reading in seconds since the Unix epoch; `None`, a reading before the
    /// epoch, counts as zero.
    pub fn is_expired_at_reading(&self, reading: Option<u64>, max_age_secs: u64) -> (res: bool)
        ensures
            res == expired_at(self.timestamp, reading_secs(reading), max_age_secs),
            reading matches Some(now) ==> (res <==> now >= self.timestamp
                && now - self.timestamp > max_age_secs),
            reading is None ==> !res,
    {
        let now = match reading {
            Some(secs) => secs,
            None => 0,
        };
        self.is_expired_at(now, max_age_secs)
    }

    /// Whether the attestation is older than `max_age_secs` at the time `now`.
    pub fn is_expired_at(&self, now: u64, max_age_secs: u64) -> (res: bool)
        ensures
            res == expired_at(self.timestamp, now, max_age_secs),
            now >= self.timestamp ==> (res <==> now - self.timestamp > max_age_secs),
            now < self.timestamp ==> !res,
    {
        now.saturating_sub(self.timestamp) > max_age_secs
    }

    /// The attestation as a JSON object.
    pub fn to_json(&self) -> (res: String)
        ensures
            res@ == json_text(self@),
    {
        let mut out = "{\"id\":\"".to_owned();
        push_json_string(&mut out, self.id.as_str());
        out.append("\",\"timestamp\":");
        push_decimal(&mut out, self.timestamp);
        out.append(",\"data_hash\":\"");
        push_json_string(&mut out, self.data_hash.as_str());
        out.append("\",\"signature\":\"");
        push_json_string(&mut out, self.signature.as_str());
        out.append("\",\"num_qubits\":");
        push_decimal(&mut out, self.num_qubits as u64);
        out.append(",\"iterations\":");
        push_decimal(&mut out, self.iterations);
        out.append(",\"success\":");
        push_bool(&mut out, self.success);
        out.append("}");
        out
    }
}

/// Builder of an attestation, for a fluent API.
#[derive(Debug, Clone)]
pub struct AttestationBuilder {
    data: Vec<u8>,
    num_qubits: usize,
    iterations: u64,
    success: bool,
}

/// What a builder holds so far.
pub struct BuilderView {
    pub data: Seq<u8>,
    pub num_qubits: usize,
    pub iterations: u64,
    pub success: bool,
}

impl View for AttestationBuilder {
    type V = BuilderView;

    closed spec fn view(&self) -> BuilderView {
        BuilderView {
            data: self.data@,
            num_qubits: self.num_qubits,
            iterations: self.iterations,
            success: self.success,
        }
    }
}

/// A builder that holds nothing yet: no data, no qubits, no iterations, no
/// success.
pub open spec fn empty_builder() -> BuilderView {
    BuilderView { data: Seq::empty(), num_qubits: 0, iterations: 0, success: false }
}

impl Default for AttestationBuilder {
    fn default() -> (b: Self)
        ensures
            b@ == empty_builder(),
    {
        AttestationBuilder { data: Vec::new(), num_qubits: 0, iterations: 0, success: false }
    }
}

impl AttestationBuilder {
    /// Creates a builder that holds nothing yet.
    pub fn new() -> (b: Self)
        ensures
            b@ == empty_builder(),
    {
        AttestationBuilder::default()
    }

    /// Sets the data to attest.
    pub fn with_data(self, data: &[u8]) -> (b: Self)
        ensures
            b@ == (BuilderView { data: data@, ..self@ }),
    {
        let mut b = self;
        b.data = slice_to_vec(data);
        b
    }

    /// Sets the number of qubits.
    pub fn with_qubits(self, num_qubits: usize) -> (b: Self)
        ensures
            b@ == (BuilderView { num_qubits, ..self@ }),
    {
        let mut b = self;
        b.num_qubits = num_qubits;
        b
    }

    /// Sets the number of iterations.
    pub fn with_iterations(self, iterations: u64) -> (b: Self)
        ensures
            b@ == (BuilderView { iterations, ..self@ }),
    {
        let mut b = self;
        b.iterations = iterations;
        b
    }

    /// Sets the success flag.
    pub fn with_success(self, success: bool) -> (b: Self)
        ensures
            b@ == (BuilderView { success, ..self@ }),
    {
        let mut b = self;
        b.success = success;
        b
    }

    /// Makes the attestation of what the builder holds, as `Attestation::new`
    /// does.
    pub fn build(self) -> (res: AttestationResult<Attestation>)
        ensures
            res matches Ok(a) ==> a@ == issued(
                self@.data,
                self@.num_qubits,
                self@.iterations,
                self@.success,
                a.timestamp,
            ),
            res matches Ok(a) ==> a.data_hash@ == hex_lower(sha256_of(self@.data)),
            res matches Ok(a) ==> exists|t: SystemTime| epoch_reading(t) == Some(a.timestamp),
            res matches Ok(a) ==> a.data_hash@.len() == 64 && a.id@.len() == 32
                && a.signature@.len() == 64,
            res matches Err(e) ==> e is GenerationError,
            res is Err ==> exists|t: SystemTime| epoch_reading(t) is None,
    {
        Attestation::new(self.data.as_slice(), self.num_qubits, self.iterations, self.success)
    }
}

/// An attestation verifies as it was made: the signature of the attestation
/// of any data at any time is the one its identifier, digest text and time
/// call for.
pub proof fn lemma_issued_verifies(
    data: Seq<u8>,
    num_qubits: usize,
    iterations: u64,
    success: bool,
    timestamp: u64,
)
    ensures
        signature_valid(issued(data, num_qubits, iterations, success, timestamp)),
{
}

/// A changed signature is caught: replacing the signature of an attestation
/// that verifies with any other text makes it fail verification.
pub proof fn lemma_tampered_signature_fails(v: AttestationView, forged: Seq<char>)
    requires
        signature_valid(v),
        forged != v.signature,
    ensures
        !signature_valid(AttestationView { signature: forged, ..v }),
{
}

/// The digest text of an attestation depends on its data alone: attestations
/// of the same data agree on it, whatever their time and counts.
pub proof fn lemma_data_hash_depends_on_data_alone(
    data: Seq<u8>,
    a: (usize, u64, bool, u64),
    b: (usize, u64, bool, u64),
)
    ensures
        issued(data, a.0, a.1, a.2, a.3).data_hash == issued(data, b.0, b.1, b.2, b.3).data_hash,
        issued(data, a.0, a.1, a.2, a.3).data_hash == data_hash_text(data),
{
}

/// Expiry only comes with time: an attestation expired at some moment is
/// expired at every later one, and at any moment an attestation is expired
/// under a limit only if it is under every smaller one.
pub proof fn lemma_expiry_is_monotone(timestamp: u64, now: u64, later: u64, max_age: u64, smaller: u64)
    requires
        now <= later,
        smaller <= max_age,
    ensures
        expired_at(timestamp, now, max_age) ==> expired_at(timestamp, later, max_age),
        expired_at(timestamp, now, max_age) ==> expired_at(timestamp, now, smaller),
{
}

/// An attestation is not expired at the moment it is made, whatever the limit.
pub proof fn lemma_fresh_attestation_not_expired(timestamp: u64, max_age: u64)
    ensures
        !expired_at(timestamp, timestamp, max_age),
{
}

/// Hexadecimal text needs no escaping in JSON: it is the same inside a JSON
/// string.
pub proof fn lemma_hex_text_needs_no_escape(bytes: Seq<u8>)
    ensures
        json_escape(hex_lower(bytes)) == hex_lower(bytes),
    decreases bytes.len(),
{
    if bytes.len() > 0 {
        let last = bytes.last();
        let hi = crate::digest::hex_char(last / 16);
        let lo = crate::digest::hex_char(last % 16);
        lemma_hex_text_needs_no_escape(bytes.drop_last());
        lemma_json_escape_concat(hex_lower(bytes.drop_last()), seq![hi, lo]);
        lemma_json_escape_concat(seq![hi], seq![lo]);
        assert(seq![hi, lo] =~= seq![hi] + seq![lo]);
        assert(json_escape(seq![hi]) =~= seq![hi]) by {
            assert(seq![hi].drop_last() =~= Seq::<char>::empty());
            reveal_with_fuel(json_escape, 2);
        }
        assert(json_escape(seq![lo]) =~= seq![lo]) by {
            assert(seq![lo].drop_last() =~= Seq::<char>::empty());
            reveal_with_fuel(json_escape, 2);
        }
    }
}

/// The JSON text of an attestation as it is made shows its texts as they are:
/// the digest text, identifier and signature are hexadecimal and need no
/// escaping.
pub proof fn lemma_issued_json_unescaped(
    data: Seq<u8>,
    num_qubits: usize,
    iterations: u64,
    success: bool,
    timestamp: u64,
)
    ensures
        ({
            let v = issued(data, num_qubits, iterations, success, timestamp);
            &&& json_escape(v.id) == v.id
            &&& json_escape(v.data_hash) == v.data_hash
            &&& json_escape(v.signature) == v.signature
        }),
{
    let v = issued(data, num_qubits, iterations, success, timestamp);
    lemma_hex_text_needs_no_escape(sha256_of(data));
    lemma_hex_text_needs_no_escape(sha256_of(encode_utf8(v.data_hash + decimal(timestamp as nat))).take(16));
    lemma_hex_text_needs_no_escape(sha256_of(encode_utf8(
        signed_message(v.id, v.data_hash, timestamp, num_qubits, iterations, success),
    )));
}

/// Reads the JSON object text of an attestation: the members `id`,
/// `timestamp`, `data_hash`, `signature`, `num_qubits`, `iterations` and
/// `success`, in that order and nothing else, with string members decoded
/// and numbers read in decimal; `None` where the text is not such an object
/// or a number does not fit its field.
pub open spec fn read_attestation_json(t: Seq<char>) -> Option<AttestationView> {
    match read_literal("{\"id\":\""@, t) {
        None => None,
        Some(t) => match read_json_string(t) {
            None => None,
            Some((id, t)) => match read_literal(",\"timestamp\":"@, t) {
                None => None,
                Some(t) => match read_decimal(t) {
                    None => None,
                    Some((timestamp, t)) => match read_literal(",\"data_hash\":\""@, t) {
                        None => None,
                        Some(t) => match read_json_string(t) {
                            None => None,
                            Some((data_hash, t)) => match read_literal(",\"signature\":\""@, t) {
                                None => None,
                                Some(t) => match read_json_string(t) {
                                    None => None,
                                    Some((signature, t)) => match read_literal(",\"num_qubits\":"@, t) {
                                        None => None,
                                        Some(t) => match read_decimal(t) {
                                            None => None,
                                            Some((num_qubits, t)) => match read_literal(",\"iterations\":"@, t) {
                                                None => None,
                                                Some(t) => match read_decimal(t) {
                                                    None => None,
                                                    Some((iterations, t)) => match read_literal(",\"success\":"@, t) {
                                                        None => None,
                                                        Some(t) => match read_bool(t) {
                                                            None => None,
                                                            Some((success, t)) => {
                                                                if t == "}"@ && timestamp <= u64::MAX
                                                                    && num_qubits <= usize::MAX
                                                                    && iterations <= u64::MAX {
                                                                    Some(AttestationView {
                                                                        id,
                                                                        timestamp: timestamp as u64,
                                                                        data_hash,
                                                                        signature,
                                                                        num_qubits: num_qubits as usize,
                                                                        iterations: iterations as u64,
                                                                        success,
                                                                    })
                                                                } else {
                                                                    None
                                                                }
                                                            },
                                                        },
                                                    },
                                                },
                                            },
                                        },
                                    },
                                },
                            },
                        },
                    },
                },
            },
        },
    }
}

/// The JSON text of an attestation, its pieces taken from the right.
pub open spec fn json_text_nested(v: AttestationView) -> Seq<char> {
    "{\"id\":\""@ + (json_escape(v.id)
        + ("\",\"timestamp\":"@ + (decimal(v.timestamp as nat)
        + (",\"data_hash\":\""@ + (json_escape(v.data_hash)
        + ("\",\"signature\":\""@ + (json_escape(v.signature)
        + ("\",\"num_qubits\":"@ + (decimal(v.num_qubits as nat)
        + (",\"iterations\":"@ + (decimal(v.iterations as nat)
        + (",\"success\":"@ + (bool_text(v.success)
        + "}"@)))))))))))))
}

proof fn lemma_json_text_nested(v: AttestationView)
    ensures
        json_text(v) == json_text_nested(v),
{
    let p1: Seq<char> = "{\"id\":\""@;
    let p2 = json_escape(v.id);
    let p3: Seq<char> = "\",\"timestamp\":"@;
    let p4 = decimal(v.timestamp as nat);
    let p5: Seq<char> = ",\"data_hash\":\""@;
    let p6 = json_escape(v.data_hash);
    let p7: Seq<char> = "\",\"signature\":\""@;
    let p8 = json_escape(v.signature);
    let p9: Seq<char> = "\",\"num_qubits\":"@;
    let p10 = decimal(v.num_qubits as nat);
    let p11: Seq<char> = ",\"iterations\":"@;
    let p12 = decimal(v.iterations as nat);
    let p13: Seq<char> = ",\"success\":"@;
    let p14 = bool_text(v.success);
    let p15: Seq<char> = "}"@;
    let r14 = p14 + p15;
    let r13 = p13 + r14;
    let r12 = p12 + r13;
    let r11 = p11 + r12;
    let r10 = p10 + r11;
    let r9 = p9 + r10;
    let r8 = p8 + r9;
    let r7 = p7 + r8;
    let r6 = p6 + r7;
    let r5 = p5 + r6;
    let r4 = p4 + r5;
    let r3 = p3 + r4;
    let r2 = p2 + r3;
    let l2 = p1 + p2;
    let l3 = l2 + p3;
    let l4 = l3 + p4;
    let l5 = l4 + p5;
    let l6 = l5 + p6;
    let l7 = l6 + p7;
    let l8 = l7 + p8;
    let l9 = l8 + p9;
    let l10 = l9 + p10;
    let l11 = l10 + p11;
    let l12 = l11 + p12;
    let l13 = l12 + p13;
    let l14 = l13 + p14;
    assert(json_text(v) == l14 + p15);
    lemma_concat_associative(l13, p14, p15);
    lemma_concat_associative(l12, p13, r14);
    lemma_concat_associative(l11, p12, r13);
    lemma_concat_associative(l10, p11, r12);
    lemma_concat_associative(l9, p10, r11);
    lemma_concat_associative(l8, p9, r10);
    lemma_concat_associative(l7, p8, r9);
    lemma_concat_associative(l6, p7, r8);
    lemma_concat_associative(l5, p6, r7);
    lemma_concat_associative(l4, p5, r6);
    lemma_concat_associative(l3, p4, r5);
    lemma_concat_associative(l2, p3, r4);
    lemma_concat_associative(p1, p2, r3);
    assert(json_text_nested(v) == p1 + r2);
}

/// The JSON text of any attestation reads back as that attestation: it is a
/// JSON object with exactly the members `id`, `timestamp`, `data_hash`,
/// `signature`, `num_qubits`, `iterations` and `success`, whose values are
/// the attestation's fields, whatever characters its texts hold.
pub proof fn lemma_json_round_trip(v: AttestationView)
    ensures
        read_attestation_json(json_text(v)) == Some(v),
{
    lemma_json_text_nested(v);
    reveal_strlit("\",\"timestamp\":");
    reveal_strlit(",\"timestamp\":");
    reveal_strlit(",\"data_hash\":\"");
    reveal_strlit("\",\"signature\":\"");
    reveal_strlit(",\"signature\":\"");
    reveal_strlit("\",\"num_qubits\":");
    reveal_strlit(",\"num_qubits\":");
    reveal_strlit(",\"iterations\":");
    reveal_strlit(",\"success\":");
    let q = seq!['"'];
    let r14: Seq<char> = "}"@;
    let r13 = bool_text(v.success) + r14;
    let r12 = ",\"success\":"@ + r13;
    let r11 = decimal(v.iterations as nat) + r12;
    let r10 = ",\"iterations\":"@ + r11;
    let r9 = decimal(v.num_qubits as nat) + r10;
    let r8 = ",\"num_qubits\":"@ + r9;
    let r7 = json_escape(v.signature) + q + r8;
    let r6 = ",\"signature\":\""@ + r7;
    let r5 = json_escape(v.data_hash) + q + r6;
    let r4 = ",\"data_hash\":\""@ + r5;
    let r3 = decimal(v.timestamp as nat) + r4;
    let r2 = ",\"timestamp\":"@ + r3;
    let r1 = json_escape(v.id) + q + r2;
    assert("\",\"timestamp\":"@ + r3 =~= q + r2);
    lemma_concat_associative(json_escape(v.id), q, r2);
    assert("\",\"signature\":\""@ + r7 =~= q + r6);
    lemma_concat_associative(json_escape(v.data_hash), q, r6);
    assert("\",\"num_qubits\":"@ + r9 =~= q + r8);
    lemma_concat_associative(json_escape(v.signature), q, r8);
    assert(json_text(v) == "{\"id\":\""@ + r1);
    lemma_read_literal("{\"id\":\""@, r1);
    lemma_json_string_round_trip(v.id, r2);
    lemma_read_literal(",\"timestamp\":"@, r3);
    assert(r4[0] == ',');
    lemma_decimal_round_trip(v.timestamp as nat, r4);
    lemma_read_literal(",\"data_hash\":\""@, r5);
    lemma_json_string_round_trip(v.data_hash, r6);
    lemma_read_literal(",\"signature\":\""@, r7);
    lemma_json_string_round_trip(v.signature, r8);
    lemma_read_literal(",\"num_qubits\":"@, r9);
    assert(r10[0] == ',');
    lemma_decimal_round_trip(v.num_qubits as nat, r10);
    lemma_read_literal(",\"iterations\":"@, r11);
    assert(r12[0] == ',');
    lemma_decimal_round_trip(v.iterations as nat, r12);
    lemma_read_literal(",\"success\":"@, r13);
    lemma_bool_round_trip(v.success, r14);
}

/// The data hash of an attestation is the lowercase hexadecimal SHA-256
/// digest of the whole data, for any data and any other inputs.
pub proof fn lemma_data_hash_is_digest_of_whole_data(
    data: Seq<u8>,
    num_qubits: usize,
    iterations: u64,
    success: bool,
    timestamp: u64,
)
    ensures
        issued(data, num_qubits, iterations, success, timestamp).data_hash == hex_lower(sha256_of(data)),
{
}

/// Expiry is by age: at `timestamp + age`, an attestation made at `timestamp`
/// is expired exactly when `age` exceeds the limit; before it was made it is
/// never expired.
pub proof fn lemma_expiry_by_age(timestamp: u64, age: u64, now: u64, max_age_secs: u64)
    requires
        timestamp + age <= u64::MAX,
    ensures
        expired_at(timestamp, (timestamp + age) as u64, max_age_secs) == (age > max_age_secs),
        now < timestamp ==> !expired_at(timestamp, now, max_age_secs),
{
}

/// What follows the identifier and digest text in a signed message.
spec fn signed_tail(timestamp: u64, num_qubits: usize, iterations: u64, success: bool) -> Seq<char> {
    decimal(timestamp as nat) + (":"@ + (decimal(num_qubits as nat) + (":"@ + (decimal(
        iterations as nat,
    ) + (":"@ + bool_text(success))))))
}

proof fn lemma_signed_message_split(
    id: Seq<char>,
    data_hash: Seq<char>,
    timestamp: u64,
    num_qubits: usize,
    iterations: u64,
    success: bool,
)
    ensures
        signed_message(id, data_hash, timestamp, num_qubits, iterations, success)
            == id + ":"@ + data_hash + ":"@ + signed_tail(timestamp, num_qubits, iterations, success),
{
    let c: Seq<char> = ":"@;
    let p = id + c + data_hash + c;
    let dt = decimal(timestamp as nat);
    let dq = decimal(num_qubits as nat);
    let di = decimal(iterations as nat);
    let bs = bool_text(success);
    let r6 = c + bs;
    let r5 = di + r6;
    let r4 = c + r5;
    let r3 = dq + r4;
    let r2 = c + r3;
    lemma_concat_associative(p + dt + c + dq + c + di, c, bs);
    lemma_concat_associative(p + dt + c + dq + c, di, r6);
    lemma_concat_associative(p + dt + c + dq, c, r5);
    lemma_concat_associative(p + dt + c, dq, r4);
    lemma_concat_associative(p + dt, c, r3);
    lemma_concat_associative(p, dt, r2);
}

/// The signed message pins the time and the counts: two messages over the
/// same identifier and digest text are equal only where their timestamps,
/// qubit counts, iteration counts and success flags are all equal. So a
/// signature made for one time never stands for another.
pub proof fn lemma_signed_message_determines_fields(
    id: Seq<char>,
    data_hash: Seq<char>,
    t1: u64,
    q1: usize,
    i1: u64,
    s1: bool,
    t2: u64,
    q2: usize,
    i2: u64,
    s2: bool,
)
    requires
        signed_message(id, data_hash, t1, q1, i1, s1) == signed_message(id, data_hash, t2, q2, i2, s2),
    ensures
        t1 == t2,
        q1 == q2,
        i1 == i2,
        s1 == s2,
{
    reveal_strlit(":");
    let c: Seq<char> = ":"@;
    let p = id + c + data_hash + c;
    lemma_signed_message_split(id, data_hash, t1, q1, i1, s1);
    lemma_signed_message_split(id, data_hash, t2, q2, i2, s2);
    let m1 = signed_tail(t1, q1, i1, s1);
    let m2 = signed_tail(t2, q2, i2, s2);
    assert(m1 =~= (p + m1).skip(p.len() as int));
    assert(m2 =~= (p + m2).skip(p.len() as int));
    assert(m1 == m2);
    let e = Seq::<char>::empty();
    let a1 = c + (decimal(q1 as nat) + (c + (decimal(i1 as nat) + (c + bool_text(s1)))));
    let a2 = c + (decimal(q2 as nat) + (c + (decimal(i2 as nat) + (c + bool_text(s2)))));
    lemma_decimal_round_trip(t1 as nat, a1);
    lemma_decimal_round_trip(t2 as nat, a2);
    assert(t1 == t2);
    let b1 = decimal(q1 as nat) + (c + (decimal(i1 as nat) + (c + bool_text(s1))));
    let b2 = decimal(q2 as nat) + (c + (decimal(i2 as nat) + (c + bool_text(s2))));
    lemma_read_literal(c, b1);
    lemma_read_literal(c, b2);
    let g1 = c + (decimal(i1 as nat) + (c + bool_text(s1)));
    let g2 = c + (decimal(i2 as nat) + (c + bool_text(s2)));
    lemma_decimal_round_trip(q1 as nat, g1);
    lemma_decimal_round_trip(q2 as nat, g2);
    assert(q1 == q2);
    let h1 = decimal(i1 as nat) + (c + bool_text(s1));
    let h2 = decimal(i2 as nat) + (c + bool_text(s2));
    lemma_read_literal(c, h1);
    lemma_read_literal(c, h2);
    lemma_decimal_round_trip(i1 as nat, c + bool_text(s1));
    lemma_decimal_round_trip(i2 as nat, c + bool_text(s2));
    assert(i1 == i2);
    lemma_read_literal(c, bool_text(s1));
    lemma_read_literal(c, bool_text(s2));
    assert(bool_text(s1) + e =~= bool_text(s1));
    assert(bool_text(s2) + e =~= bool_text(s2));
    lemma_bool_round_trip(s1, e);
    lemma_bool_round_trip(s2, e);
}

} // verus!
