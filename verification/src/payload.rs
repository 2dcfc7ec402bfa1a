use vstd::prelude::*;
use crate::error::AuthenticationError;

verus! {

/// Number of public inputs of the login circuit.
pub const NR_PUBLIC_INPUTS: usize = 1;

/// Bytes of one public input, a big-endian field element.
pub const FIELD_LEN: usize = 32;

/// Offset of `pi_b` in a sign-in payload.
pub const PI_B_OFFSET: usize = 64;

/// Offset of `pi_c` in a sign-in payload.
pub const PI_C_OFFSET: usize = 192;

/// Offset of the first public input in a sign-in payload; also the length
/// of the three proof elements together.
pub const INPUTS_OFFSET: usize = 256;

/// Exact length of a sign-in payload.
pub const PAYLOAD_LEN: usize = INPUTS_OFFSET + FIELD_LEN * NR_PUBLIC_INPUTS;

/// The three curve points of a Groth16 proof, each in its big-endian
/// uncompressed encoding.
#[derive(Clone, Copy, Debug)]
pub struct Proof {
    /// A point of G1.
    pub pi_a: [u8; 64],
    /// A point of G2.
    pub pi_b: [u8; 128],
    /// A point of G1.
    pub pi_c: [u8; 64],
}

/// What a `Proof` holds, as sequences of bytes.
pub struct ProofView {
    pub pi_a: Seq<u8>,
    pub pi_b: Seq<u8>,
    pub pi_c: Seq<u8>,
}

impl View for Proof {
    type V = ProofView;

    open spec fn view(&self) -> ProofView {
        ProofView { pi_a: self.pi_a@, pi_b: self.pi_b@, pi_c: self.pi_c@ }
    }
}

/// The public inputs of one sign-in attempt, in circuit order.
#[derive(Clone, Copy, Debug)]
pub struct PublicInputs {
    pub elements: [[u8; 32]; NR_PUBLIC_INPUTS],
}

impl View for PublicInputs {
    type V = Seq<Seq<u8>>;

    open spec fn view(&self) -> Seq<Seq<u8>> {
        Seq::new(NR_PUBLIC_INPUTS as nat, |k: int| self.elements@[k]@)
    }
}

/// The proof that a payload of the right length carries.
pub open spec fn payload_proof(raw: Seq<u8>) -> ProofView {
    ProofView {
        pi_a: raw.subrange(0, PI_B_OFFSET as int),
        pi_b: raw.subrange(PI_B_OFFSET as int, PI_C_OFFSET as int),
        pi_c: raw.subrange(PI_C_OFFSET as int, INPUTS_OFFSET as int),
    }
}

/// The public inputs that a payload of the right length carries.
pub open spec fn payload_inputs(raw: Seq<u8>) -> Seq<Seq<u8>> {
    Seq::new(
        NR_PUBLIC_INPUTS as nat,
        |k: int| raw.subrange(INPUTS_OFFSET + FIELD_LEN * k, INPUTS_OFFSET + FIELD_LEN * (k + 1)),
    )
}

/// Whether `proof` and `inputs` have the shape of decoded values: every
/// element has its fixed width.
pub open spec fn well_shaped(proof: ProofView, inputs: Seq<Seq<u8>>) -> bool {
    &&& proof.pi_a.len() == 64
    &&& proof.pi_b.len() == 128
    &&& proof.pi_c.len() == 64
    &&& inputs.len() == NR_PUBLIC_INPUTS
    &&& forall|k: int| 0 <= k < inputs.len() ==> (#[trigger] inputs[k]).len() == FIELD_LEN
}

/// The payload that carries `proof` and `inputs`: the three proof elements,
/// then the public inputs, one after the other.
pub open spec fn payload_of(proof: ProofView, inputs: Seq<Seq<u8>>) -> Seq<u8> {
    Seq::new(
        PAYLOAD_LEN as nat,
        |i: int|
            if i < PI_B_OFFSET {
                proof.pi_a[i]
            } else if i < PI_C_OFFSET {
                proof.pi_b[i - PI_B_OFFSET]
            } else if i < INPUTS_OFFSET {
                proof.pi_c[i - PI_C_OFFSET]
            } else {
                inputs[(i - INPUTS_OFFSET) / (FIELD_LEN as int)][(i - INPUTS_OFFSET) % (
                FIELD_LEN as int)]
            },
    )
}

/// What decoding makes of `raw`: the proof and inputs it carries when it has
/// the exact payload length, `MalformedPayload` otherwise.
pub open spec fn decoded(raw: Seq<u8>) -> Result<(ProofView, Seq<Seq<u8>>), AuthenticationError> {
    if raw.len() == PAYLOAD_LEN {
        Ok((payload_proof(raw), payload_inputs(raw)))
    } else {
        Err(AuthenticationError::MalformedPayload)
    }
}

/// Copies the 32 bytes of `raw` that start at `start`.
pub(crate) fn read_32(raw: &[u8], start: usize) -> (out: [u8; 32])
    requires
        start + 32 <= raw@.len(),
    ensures
        out@ == raw@.subrange(start as int, start + 32),
{
    let n: usize = raw.len();
    let mut out: [u8; 32] = [0u8; 32];
    let mut i: usize = 0;
    while i < 32
        invariant
            i <= 32,
            n == raw@.len(),
            start + 32 <= n,
            forall|j: int| 0 <= j < i ==> out@[j] == raw@[start + j],
        decreases 32 - i,
    {
        out[i] = raw[start + i];
        i = i + 1;
    }
    assert(out@ =~= raw@.subrange(start as int, start + 32));
    out
}

/// Copies the 64 bytes of `raw` that start at `start`.
fn read_64(raw: &[u8], start: usize) -> (out: [u8; 64])
    requires
        start + 64 <= raw@.len(),
    ensures
        out@ == raw@.subrange(start as int, start + 64),
{
    let n: usize = raw.len();
    let mut out: [u8; 64] = [0u8; 64];
    let mut i: usize = 0;
    while i < 64
        invariant
            i <= 64,
            n == raw@.len(),
            start + 64 <= n,
            forall|j: int| 0 <= j < i ==> out@[j] == raw@[start + j],
        decreases 64 - i,
    {
        out[i] = raw[start + i];
        i = i + 1;
    }
    assert(out@ =~= raw@.subrange(start as int, start + 64));
    out
}

/// Copies the 128 bytes of `raw` that start at `start`.
fn read_128(raw: &[u8], start: usize) -> (out: [u8; 128])
    requires
        start + 128 <= raw@.len(),
    ensures
        out@ == raw@.subrange(start as int, start + 128),
{
    let n: usize = raw.len();
    let mut out: [u8; 128] = [0u8; 128];
    let mut i: usize = 0;
    while i < 128
        invariant
            i <= 128,
            n == raw@.len(),
            start + 128 <= n,
            forall|j: int| 0 <= j < i ==> out@[j] == raw@[start + j],
        decreases 128 - i,
    {
        out[i] = raw[start + i];
        i = i + 1;
    }
    assert(out@ =~= raw@.subrange(start as int, start + 128));
    out
}

/// Splits a sign-in payload into its proof and its public inputs.
///
/// The payload must have exactly `PAYLOAD_LEN` bytes; any other length is
/// answered with `MalformedPayload`. Whether the bytes encode curve points
/// is not decided here.
pub fn decode(raw: &[u8]) -> (r: Result<(Proof, PublicInputs), AuthenticationError>)
    ensures
        r is Ok <==> raw@.len() == PAYLOAD_LEN,
        r matches Err(e) ==> e == AuthenticationError::MalformedPayload,
        r matches Ok(pair) ==> decoded(raw@) == Ok::<_, AuthenticationError>((pair.0@, pair.1@)),
{
    if raw.len() != PAYLOAD_LEN {
        return Err(AuthenticationError::MalformedPayload);
    }
    let proof = Proof {
        pi_a: read_64(raw, 0),
        pi_b: read_128(raw, PI_B_OFFSET),
        pi_c: read_64(raw, PI_C_OFFSET),
    };
    let mut elements: [[u8; 32]; NR_PUBLIC_INPUTS] = [[0u8; 32]; NR_PUBLIC_INPUTS];
    let mut k: usize = 0;
    while k < NR_PUBLIC_INPUTS
        invariant
            k <= NR_PUBLIC_INPUTS,
            raw@.len() == PAYLOAD_LEN,
            forall|j: int|
                0 <= j < k ==> (#[trigger] elements@[j])@ == raw@.subrange(
                    INPUTS_OFFSET + FIELD_LEN * j,
                    INPUTS_OFFSET + FIELD_LEN * (j + 1),
                ),
        decreases NR_PUBLIC_INPUTS - k,
    {
        elements[k] = read_32(raw, INPUTS_OFFSET + FIELD_LEN * k);
        k = k + 1;
    }
    let inputs = PublicInputs { elements };
    assert(inputs@ =~= payload_inputs(raw@));
    Ok((proof, inputs))
}

/// Lays a proof and its public inputs out as a sign-in payload.
pub fn encode(proof: &Proof, inputs: &PublicInputs) -> (raw: Vec<u8>)
    ensures
        raw@ == payload_of(proof@, inputs@),
{
    let mut raw: Vec<u8> = Vec::new();
    let mut i: usize = 0;
    while i < 64
        invariant
            i <= 64,
            raw@.len() == i,
            forall|j: int| 0 <= j < i ==> raw@[j] == proof.pi_a@[j],
        decreases 64 - i,
    {
        raw.push(proof.pi_a[i]);
        i = i + 1;
    }
    i = 0;
    while i < 128
        invariant
            i <= 128,
            raw@.len() == PI_B_OFFSET + i,
            forall|j: int| 0 <= j < PI_B_OFFSET ==> raw@[j] == proof.pi_a@[j],
            forall|j: int| 0 <= j < i ==> raw@[PI_B_OFFSET + j] == proof.pi_b@[j],
        decreases 128 - i,
    {
        raw.push(proof.pi_b[i]);
        i = i + 1;
    }
    i = 0;
    while i < 64
        invariant
            i <= 64,
            raw@.len() == PI_C_OFFSET + i,
            forall|j: int| 0 <= j < PI_B_OFFSET ==> raw@[j] == proof.pi_a@[j],
            forall|j: int| 0 <= j < 128 ==> raw@[PI_B_OFFSET + j] == proof.pi_b@[j],
            forall|j: int| 0 <= j < i ==> raw@[PI_C_OFFSET + j] == proof.pi_c@[j],
        decreases 64 - i,
    {
        raw.push(proof.pi_c[i]);
        i = i + 1;
    }
    let mut k: usize = 0;
    while k < NR_PUBLIC_INPUTS
        invariant
            k <= NR_PUBLIC_INPUTS,
            raw@.len() == INPUTS_OFFSET + FIELD_LEN * k,
            forall|j: int| 0 <= j < raw@.len() ==> raw@[j] == payload_of(proof@, inputs@)[j],
        decreases NR_PUBLIC_INPUTS - k,
    {
        let element: &[u8; 32] = &inputs.elements[k];
        i = 0;
        while i < FIELD_LEN
            invariant
                i <= FIELD_LEN,
                k < NR_PUBLIC_INPUTS,
                *element == inputs.elements@[k as int],
                raw@.len() == INPUTS_OFFSET + FIELD_LEN * k + i,
                forall|j: int| 0 <= j < raw@.len() ==> raw@[j] == payload_of(proof@, inputs@)[j],
            decreases FIELD_LEN - i,
        {
            raw.push(element[i]);
            i = i + 1;
        }
        k = k + 1;
    }
    assert(raw@ =~= payload_of(proof@, inputs@));
    raw
}

/// Decoding and encoding undo each other: a payload of the exact length is
/// the encoding of the proof and inputs that it decodes to.
pub proof fn lemma_encode_after_decode(raw: Seq<u8>)
    requires
        raw.len() == PAYLOAD_LEN,
    ensures
        decoded(raw) == Ok::<_, AuthenticationError>((payload_proof(raw), payload_inputs(raw))),
        well_shaped(payload_proof(raw), payload_inputs(raw)),
        payload_of(payload_proof(raw), payload_inputs(raw)) == raw,
{
    assert(payload_of(payload_proof(raw), payload_inputs(raw)) =~= raw);
}

/// Encoding and decoding undo each other in the other direction too: the
/// encoding of a proof and inputs of the fixed widths has the exact payload
/// length and decodes to the same proof and inputs.
pub proof fn lemma_decode_after_encode(proof: ProofView, inputs: Seq<Seq<u8>>)
    requires
        well_shaped(proof, inputs),
    ensures
        payload_of(proof, inputs).len() == PAYLOAD_LEN,
        decoded(payload_of(proof, inputs)) == Ok::<_, AuthenticationError>((proof, inputs)),
{
    let raw = payload_of(proof, inputs);
    assert(payload_proof(raw).pi_a =~= proof.pi_a);
    assert(payload_proof(raw).pi_b =~= proof.pi_b);
    assert(payload_proof(raw).pi_c =~= proof.pi_c);
    assert forall|k: int| 0 <= k < NR_PUBLIC_INPUTS implies #[trigger] payload_inputs(raw)[k]
        == inputs[k] by {
        assert(payload_inputs(raw)[k] =~= inputs[k]);
    }
    assert(payload_inputs(raw) =~= inputs);
}

/// Two payloads that decode to the same proof and inputs are the same
/// payload.
pub proof fn lemma_decode_is_injective(raw1: Seq<u8>, raw2: Seq<u8>)
    requires
        raw1.len() == PAYLOAD_LEN,
        raw2.len() == PAYLOAD_LEN,
        decoded(raw1) == decoded(raw2),
    ensures
        raw1 == raw2,
{
    lemma_encode_after_decode(raw1);
    lemma_encode_after_decode(raw2);
}


} // verus!
