//! The source model: the two parsed documents as structured values, and
//! the shape checks that admit them.  JSON decoding happens at the
//! program boundary; the constructors here reject every arity violation
//! with a `MalformedInput` error naming the offending field, so that the
//! transcoder works only on well-formed data.

use vstd::prelude::*;
use crate::errors::{ConvertError, InputFault};
use crate::points::{fp12_nested_wf, g1_pair_wf, g2_pairs_wf};

verus! {

/// A parsed source proof document: `pi_a`, `pi_c` raw G1 pairs and
/// `pi_b` a raw nested G2 point.
#[derive(Debug)]
pub struct SnarkjsProof {
    pub pi_a: Vec<String>,
    pub pi_b: Vec<Vec<String>>,
    pub pi_c: Vec<String>,
}

/// A parsed source verification-key document.
#[derive(Debug)]
pub struct SnarkjsVK {
    pub n_public: usize,
    pub vk_alpha_1: Vec<String>,
    pub vk_beta_2: Vec<Vec<String>>,
    pub vk_gamma_2: Vec<Vec<String>>,
    pub vk_delta_2: Vec<Vec<String>>,
    pub vk_alphabeta_12: Vec<Vec<Vec<String>>>,
    pub ic: Vec<Vec<String>>,
}

impl SnarkjsProof {
    /// All three point fields have the arity the transcoder consumes.
    pub open spec fn wf(&self) -> bool {
        &&& g1_pair_wf(self.pi_a.deep_view())
        &&& g2_pairs_wf(self.pi_b.deep_view())
        &&& g1_pair_wf(self.pi_c.deep_view())
    }

    /// Admits a proof document, checking the arity of each field in
    /// order and naming the first one that fails.
    pub fn new(pi_a: Vec<String>, pi_b: Vec<Vec<String>>, pi_c: Vec<String>) -> (r: Result<
        SnarkjsProof,
        ConvertError,
    >)
        ensures
            r is Ok <==> {
                &&& g1_pair_wf(pi_a.deep_view())
                &&& g2_pairs_wf(pi_b.deep_view())
                &&& g1_pair_wf(pi_c.deep_view())
            },
            r matches Ok(p) ==> {
                &&& p.wf()
                &&& p.pi_a.deep_view() == pi_a.deep_view()
                &&& p.pi_b.deep_view() == pi_b.deep_view()
                &&& p.pi_c.deep_view() == pi_c.deep_view()
            },
            r matches Err(e) ==> {
                ||| {
                    &&& e == ConvertError::MalformedInput(InputFault::ProofPiA)
                    &&& !g1_pair_wf(pi_a.deep_view())
                }
                ||| {
                    &&& e == ConvertError::MalformedInput(InputFault::ProofPiB)
                    &&& g1_pair_wf(pi_a.deep_view())
                    &&& !g2_pairs_wf(pi_b.deep_view())
                }
                ||| {
                    &&& e == ConvertError::MalformedInput(InputFault::ProofPiC)
                    &&& g1_pair_wf(pi_a.deep_view())
                    &&& g2_pairs_wf(pi_b.deep_view())
                    &&& !g1_pair_wf(pi_c.deep_view())
                }
            },
    {
        if pi_a.len() < 2 {
            return Err(ConvertError::MalformedInput(InputFault::ProofPiA));
        }
        if pi_b.len() < 2 || pi_b[0].len() < 2 || pi_b[1].len() < 2 {
            return Err(ConvertError::MalformedInput(InputFault::ProofPiB));
        }
        if pi_c.len() < 2 {
            return Err(ConvertError::MalformedInput(InputFault::ProofPiC));
        }
        Ok(SnarkjsProof { pi_a, pi_b, pi_c })
    }
}

/// Every accumulator point is a raw G1 pair.
pub open spec fn ic_wf(ic: Seq<Seq<Seq<char>>>) -> bool {
    forall|i: int| 0 <= i < ic.len() ==> g1_pair_wf(#[trigger] ic[i])
}

impl SnarkjsVK {
    /// All point fields have the arity the transcoder consumes.
    pub open spec fn wf(&self) -> bool {
        &&& g1_pair_wf(self.vk_alpha_1.deep_view())
        &&& g2_pairs_wf(self.vk_beta_2.deep_view())
        &&& g2_pairs_wf(self.vk_gamma_2.deep_view())
        &&& g2_pairs_wf(self.vk_delta_2.deep_view())
        &&& fp12_nested_wf(self.vk_alphabeta_12.deep_view())
        &&& ic_wf(self.ic.deep_view())
    }

    /// Admits a verification-key document, checking the arity of each
    /// field in order and naming the first one that fails.
    pub fn new(
        n_public: usize,
        vk_alpha_1: Vec<String>,
        vk_beta_2: Vec<Vec<String>>,
        vk_gamma_2: Vec<Vec<String>>,
        vk_delta_2: Vec<Vec<String>>,
        vk_alphabeta_12: Vec<Vec<Vec<String>>>,
        ic: Vec<Vec<String>>,
    ) -> (r: Result<SnarkjsVK, ConvertError>)
        ensures
            r is Ok <==> {
                &&& g1_pair_wf(vk_alpha_1.deep_view())
                &&& g2_pairs_wf(vk_beta_2.deep_view())
                &&& g2_pairs_wf(vk_gamma_2.deep_view())
                &&& g2_pairs_wf(vk_delta_2.deep_view())
                &&& fp12_nested_wf(vk_alphabeta_12.deep_view())
                &&& ic_wf(ic.deep_view())
            },
            r matches Ok(vk) ==> {
                &&& vk.wf()
                &&& vk.n_public == n_public
                &&& vk.vk_alpha_1.deep_view() == vk_alpha_1.deep_view()
                &&& vk.vk_beta_2.deep_view() == vk_beta_2.deep_view()
                &&& vk.vk_gamma_2.deep_view() == vk_gamma_2.deep_view()
                &&& vk.vk_delta_2.deep_view() == vk_delta_2.deep_view()
                &&& vk.vk_alphabeta_12.deep_view() == vk_alphabeta_12.deep_view()
                &&& vk.ic.deep_view() == ic.deep_view()
            },
            r matches Err(e) ==> {
                ||| {
                    &&& e == ConvertError::MalformedInput(InputFault::VkAlpha1)
                    &&& !g1_pair_wf(vk_alpha_1.deep_view())
                }
                ||| {
                    &&& e == ConvertError::MalformedInput(InputFault::VkBeta2)
                    &&& !g2_pairs_wf(vk_beta_2.deep_view())
                }
                ||| {
                    &&& e == ConvertError::MalformedInput(InputFault::VkGamma2)
                    &&& !g2_pairs_wf(vk_gamma_2.deep_view())
                }
                ||| {
                    &&& e == ConvertError::MalformedInput(InputFault::VkDelta2)
                    &&& !g2_pairs_wf(vk_delta_2.deep_view())
                }
                ||| {
                    &&& e == ConvertError::MalformedInput(InputFault::VkAlphaBeta12)
                    &&& !fp12_nested_wf(vk_alphabeta_12.deep_view())
                }
                ||| {
                    &&& e == ConvertError::MalformedInput(InputFault::VkIc)
                    &&& !ic_wf(ic.deep_view())
                }
            },
    {
        if vk_alpha_1.len() < 2 {
            return Err(ConvertError::MalformedInput(InputFault::VkAlpha1));
        }
        if vk_beta_2.len() < 2 || vk_beta_2[0].len() < 2 || vk_beta_2[1].len() < 2 {
            return Err(ConvertError::MalformedInput(InputFault::VkBeta2));
        }
        if vk_gamma_2.len() < 2 || vk_gamma_2[0].len() < 2 || vk_gamma_2[1].len() < 2 {
            return Err(ConvertError::MalformedInput(InputFault::VkGamma2));
        }
        if vk_delta_2.len() < 2 || vk_delta_2[0].len() < 2 || vk_delta_2[1].len() < 2 {
            return Err(ConvertError::MalformedInput(InputFault::VkDelta2));
        }
        if vk_alphabeta_12.len() < 2 {
            return Err(ConvertError::MalformedInput(InputFault::VkAlphaBeta12));
        }
        let ab0 = &vk_alphabeta_12[0];
        let ab1 = &vk_alphabeta_12[1];
        if ab0.len() < 3 || ab1.len() < 3 {
            return Err(ConvertError::MalformedInput(InputFault::VkAlphaBeta12));
        }
        if ab0[0].len() < 2 || ab0[1].len() < 2 || ab0[2].len() < 2 || ab1[0].len() < 2
            || ab1[1].len() < 2 || ab1[2].len() < 2 {
            return Err(ConvertError::MalformedInput(InputFault::VkAlphaBeta12));
        }
        let mut i: usize = 0;
        while i < ic.len()
            invariant
                i <= ic@.len(),
                forall|k: int| 0 <= k < i ==> g1_pair_wf(#[trigger] ic.deep_view()[k]),
            decreases ic@.len() - i,
        {
            if ic[i].len() < 2 {
                proof {
                    assert(ic.deep_view()[i as int] == ic@[i as int].deep_view());
                    assert(ic.deep_view()[i as int].len() == ic@[i as int]@.len());
                    assert(!g1_pair_wf(ic.deep_view()[i as int]));
                }
                return Err(ConvertError::MalformedInput(InputFault::VkIc));
            }
            proof {
                assert(ic.deep_view()[i as int] == ic@[i as int].deep_view());
                assert(ic.deep_view()[i as int].len() == ic@[i as int]@.len());
            }
            i += 1;
        }
        Ok(SnarkjsVK { n_public, vk_alpha_1, vk_beta_2, vk_gamma_2, vk_delta_2, vk_alphabeta_12, ic })
    }
}

} // verus!
