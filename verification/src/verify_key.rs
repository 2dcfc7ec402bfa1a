use vstd::prelude::*;
use crate::payload::NR_PUBLIC_INPUTS;

verus! {

/// The verifying key of the login circuit: the output of its trusted setup,
/// every point in its big-endian uncompressed encoding.
///
/// The key is fixed for a deployment. Every function of this library takes
/// it by shared reference and none changes it.
#[derive(Clone, Debug)]
pub struct VerifyingKey {
    /// Number of input points that the setup produced.
    pub nr_pubinputs: usize,
    /// Alpha, a point of G1.
    pub vk_alpha_g1: [u8; 64],
    /// Beta, a point of G2.
    pub vk_beta_g2: [u8; 128],
    /// Gamma, a point of G2.
    pub vk_gamma_g2: [u8; 128],
    /// Delta, a point of G2.
    pub vk_delta_g2: [u8; 128],
    /// The input points, each of G1: a constant one, then one per public
    /// input.
    pub vk_ic: Vec<[u8; 64]>,
}

/// What a `VerifyingKey` holds, as sequences of bytes.
pub struct VerifyingKeyView {
    pub nr_pubinputs: nat,
    pub vk_alpha_g1: Seq<u8>,
    pub vk_beta_g2: Seq<u8>,
    pub vk_gamma_g2: Seq<u8>,
    pub vk_delta_g2: Seq<u8>,
    pub vk_ic: Seq<Seq<u8>>,
}

impl View for VerifyingKey {
    type V = VerifyingKeyView;

    open spec fn view(&self) -> VerifyingKeyView {
        VerifyingKeyView {
            nr_pubinputs: self.nr_pubinputs as nat,
            vk_alpha_g1: self.vk_alpha_g1@,
            vk_beta_g2: self.vk_beta_g2@,
            vk_gamma_g2: self.vk_gamma_g2@,
            vk_delta_g2: self.vk_delta_g2@,
            vk_ic: Seq::new(self.vk_ic@.len(), |k: int| self.vk_ic@[k]@),
        }
    }
}

impl VerifyingKeyView {
    /// Whether the key fits the login circuit: it carries one input point
    /// per public input, plus the constant one.
    pub open spec fn fits_circuit(self) -> bool {
        self.vk_ic.len() == NR_PUBLIC_INPUTS + 1
    }
}

impl VerifyingKey {
    /// Whether the key fits the login circuit.
    pub fn fits_circuit(&self) -> (fits: bool)
        ensures
            fits == self@.fits_circuit(),
    {
        self.vk_ic.len() == NR_PUBLIC_INPUTS + 1
    }
}

} // verus!
