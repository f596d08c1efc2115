//! Schema validation and target-model assembly.
//!
//! The validator cross-checks the verification key's declared
//! public-input count against the public-input vector, and the
//! accumulator-point count against that vector plus one.  The assemblers
//! then build the two target structures: the proof with its first point
//! negated and exactly five public-input slots (zero-padded), and the
//! verification key with its points relabeled, the extension-field
//! element flattened, the fixed `w27` constant, and exactly six
//! accumulator slots.  The six-slot floor is checked here independently
//! of the validator, which bounds the accumulator count only relative to
//! the public-input vector.

use vstd::prelude::*;
use crate::decimal::{dec_string_of, dec_value, is_dec_seq};
use crate::errors::ConvertError;
use crate::field::{neg_mod, prime};
use crate::points::{
    convert_g1_point, convert_g2_point, create_default_w27, flatten_fp12, fp12_view_of_nested,
    g1_view_of_pair, g2_view_of_pairs, negate_g1_point, w27_view, Fp12Element, G1Point, G2Point,
};
use crate::source::{SnarkjsProof, SnarkjsVK};

verus! {

/// How many public-input slots the target proof has.
pub const PUBLIC_INPUT_SLOTS: usize = 5;

/// How many accumulator-point slots the target verification key has.
pub const ACCUMULATOR_SLOTS: usize = 6;

/// The target proof: negated first point, relabeled second and third,
/// and five public-input slots.
#[derive(Debug)]
pub struct O1jsProof {
    pub neg_a: G1Point,
    pub b: G2Point,
    pub c: G1Point,
    pub pi1: String,
    pub pi2: String,
    pub pi3: String,
    pub pi4: String,
    pub pi5: String,
}

/// The target verification key: relabeled points, flattened
/// extension-field element, the fixed `w27` constant, and six
/// accumulator points.
#[derive(Debug)]
pub struct O1jsVK {
    pub alpha: G1Point,
    pub beta: G2Point,
    pub gamma: G2Point,
    pub delta: G2Point,
    pub alpha_beta: Fp12Element,
    pub w27: Fp12Element,
    pub ic0: G1Point,
    pub ic1: G1Point,
    pub ic2: G1Point,
    pub ic3: G1Point,
    pub ic4: G1Point,
    pub ic5: G1Point,
}

/// The string filling public-input slot `i`: the i-th input if present,
/// else the decimal zero.
pub open spec fn pi_slot(inputs: Seq<Seq<char>>, i: int) -> Seq<char> {
    if i < inputs.len() {
        inputs[i]
    } else {
        seq!['0']
    }
}

/// Cross-checks the verification key's declared counts against the
/// public-input vector; nothing else is checked here.
pub fn validate_counts(vk: &SnarkjsVK, public_inputs: &Vec<String>) -> (r: Result<
    (),
    ConvertError,
>)
    requires
        public_inputs@.len() < usize::MAX,
    ensures
        r is Ok <==> vk.n_public == public_inputs@.len() && vk.ic@.len() == public_inputs@.len()
            + 1,
        r matches Err(e) ==> {
            ||| {
                &&& vk.n_public != public_inputs@.len()
                &&& e == (ConvertError::SchemaMismatch {
                    observed: vk.n_public,
                    expected: public_inputs@.len() as usize,
                })
            }
            ||| {
                &&& vk.n_public == public_inputs@.len()
                &&& vk.ic@.len() != public_inputs@.len() + 1
                &&& e == (ConvertError::SchemaMismatch {
                    observed: vk.ic@.len() as usize,
                    expected: (public_inputs@.len() + 1) as usize,
                })
            }
        },
{
    if vk.n_public != public_inputs.len() {
        return Err(ConvertError::SchemaMismatch {
            observed: vk.n_public,
            expected: public_inputs.len(),
        });
    }
    if vk.ic.len() != public_inputs.len() + 1 {
        return Err(ConvertError::SchemaMismatch {
            observed: vk.ic.len(),
            expected: public_inputs.len() + 1,
        });
    }
    Ok(())
}

/// The string for one public-input slot, defaulting to `"0"`.
fn pi_slot_string(public_inputs: &Vec<String>, i: usize) -> (r: String)
    ensures
        r@ == pi_slot(public_inputs.deep_view(), i as int),
{
    if i < public_inputs.len() {
        public_inputs[i].clone()
    } else {
        proof {
            reveal_strlit("0");
            assert("0"@ =~= seq!['0']);
        }
        String::from_str("0")
    }
}

/// Builds the target proof: negates `pi_a`'s y-coordinate, relabels
/// `pi_b` and `pi_c`, and fills the five public-input slots from the
/// vector's first five entries, zero-padding the rest.  Fails exactly
/// when `pi_a`'s y-coordinate is not a decimal string below the prime.
pub fn assemble_proof(proof: &SnarkjsProof, public_inputs: &Vec<String>) -> (r: Result<
    O1jsProof,
    ConvertError,
>)
    requires
        proof.wf(),
    ensures
        r is Ok <==> is_dec_seq(proof.pi_a.deep_view()[1]) && dec_value(proof.pi_a.deep_view()[1])
            < prime(),
        r matches Ok(t) ==> {
            &&& t.neg_a@.x == proof.pi_a.deep_view()[0]
            &&& t.neg_a@.y == dec_string_of(neg_mod(dec_value(proof.pi_a.deep_view()[1])))
            &&& t.b@ == g2_view_of_pairs(proof.pi_b.deep_view())
            &&& t.c@ == g1_view_of_pair(proof.pi_c.deep_view())
            &&& t.pi1@ == pi_slot(public_inputs.deep_view(), 0)
            &&& t.pi2@ == pi_slot(public_inputs.deep_view(), 1)
            &&& t.pi3@ == pi_slot(public_inputs.deep_view(), 2)
            &&& t.pi4@ == pi_slot(public_inputs.deep_view(), 3)
            &&& t.pi5@ == pi_slot(public_inputs.deep_view(), 4)
        },
        r matches Err(e) ==> e == ConvertError::InvalidFieldElement,
{
    let neg_a = match negate_g1_point(&proof.pi_a) {
        Ok(p) => p,
        Err(e) => {
            return Err(e);
        },
    };
    Ok(O1jsProof {
        neg_a,
        b: convert_g2_point(&proof.pi_b),
        c: convert_g1_point(&proof.pi_c),
        pi1: pi_slot_string(public_inputs, 0),
        pi2: pi_slot_string(public_inputs, 1),
        pi3: pi_slot_string(public_inputs, 2),
        pi4: pi_slot_string(public_inputs, 3),
        pi5: pi_slot_string(public_inputs, 4),
    })
}

/// Builds the target verification key: relabels the four points,
/// flattens the extension-field element, inserts the fixed `w27`
/// constant, and copies the first six accumulator points positionally.
/// Fails exactly when fewer than six accumulator points are available.
pub fn assemble_vk(vk: &SnarkjsVK) -> (r: Result<O1jsVK, ConvertError>)
    requires
        vk.wf(),
    ensures
        r is Ok <==> vk.ic@.len() >= ACCUMULATOR_SLOTS,
        r matches Ok(t) ==> {
            &&& t.alpha@ == g1_view_of_pair(vk.vk_alpha_1.deep_view())
            &&& t.beta@ == g2_view_of_pairs(vk.vk_beta_2.deep_view())
            &&& t.gamma@ == g2_view_of_pairs(vk.vk_gamma_2.deep_view())
            &&& t.delta@ == g2_view_of_pairs(vk.vk_delta_2.deep_view())
            &&& t.alpha_beta@ == fp12_view_of_nested(vk.vk_alphabeta_12.deep_view())
            &&& t.w27@ == w27_view()
            &&& t.ic0@ == g1_view_of_pair(vk.ic.deep_view()[0])
            &&& t.ic1@ == g1_view_of_pair(vk.ic.deep_view()[1])
            &&& t.ic2@ == g1_view_of_pair(vk.ic.deep_view()[2])
            &&& t.ic3@ == g1_view_of_pair(vk.ic.deep_view()[3])
            &&& t.ic4@ == g1_view_of_pair(vk.ic.deep_view()[4])
            &&& t.ic5@ == g1_view_of_pair(vk.ic.deep_view()[5])
        },
        r matches Err(e) ==> {
            &&& vk.ic@.len() < ACCUMULATOR_SLOTS
            &&& e == (ConvertError::InsufficientAccumulatorPoints {
                available: vk.ic@.len() as usize,
            })
        },
{
    if vk.ic.len() < ACCUMULATOR_SLOTS {
        return Err(ConvertError::InsufficientAccumulatorPoints { available: vk.ic.len() });
    }
    proof {
        assert(forall|i: int| 0 <= i < vk.ic@.len()
            ==> #[trigger] vk.ic@[i].deep_view() == vk.ic.deep_view()[i]);
    }
    Ok(O1jsVK {
        alpha: convert_g1_point(&vk.vk_alpha_1),
        beta: convert_g2_point(&vk.vk_beta_2),
        gamma: convert_g2_point(&vk.vk_gamma_2),
        delta: convert_g2_point(&vk.vk_delta_2),
        alpha_beta: flatten_fp12(&vk.vk_alphabeta_12),
        w27: create_default_w27(),
        ic0: convert_g1_point(&vk.ic[0]),
        ic1: convert_g1_point(&vk.ic[1]),
        ic2: convert_g1_point(&vk.ic[2]),
        ic3: convert_g1_point(&vk.ic[3]),
        ic4: convert_g1_point(&vk.ic[4]),
        ic5: convert_g1_point(&vk.ic[5]),
    })
}

/// The whole conversion after parsing: validate the counts, then
/// assemble the target proof and the target verification key.  The
/// first failing stage's error is returned and nothing is produced.
pub fn convert_documents(
    proof: &SnarkjsProof,
    public_inputs: &Vec<String>,
    vk: &SnarkjsVK,
) -> (r: Result<(O1jsProof, O1jsVK), ConvertError>)
    requires
        proof.wf(),
        vk.wf(),
        public_inputs@.len() < usize::MAX,
    ensures
        r is Ok <==> {
            &&& vk.n_public == public_inputs@.len()
            &&& vk.ic@.len() == public_inputs@.len() + 1
            &&& is_dec_seq(proof.pi_a.deep_view()[1])
            &&& dec_value(proof.pi_a.deep_view()[1]) < prime()
            &&& vk.ic@.len() >= ACCUMULATOR_SLOTS
        },
        r matches Ok(t) ==> {
            &&& t.0.neg_a@.x == proof.pi_a.deep_view()[0]
            &&& t.0.neg_a@.y == dec_string_of(neg_mod(dec_value(proof.pi_a.deep_view()[1])))
            &&& t.0.b@ == g2_view_of_pairs(proof.pi_b.deep_view())
            &&& t.0.c@ == g1_view_of_pair(proof.pi_c.deep_view())
            &&& t.0.pi1@ == pi_slot(public_inputs.deep_view(), 0)
            &&& t.0.pi2@ == pi_slot(public_inputs.deep_view(), 1)
            &&& t.0.pi3@ == pi_slot(public_inputs.deep_view(), 2)
            &&& t.0.pi4@ == pi_slot(public_inputs.deep_view(), 3)
            &&& t.0.pi5@ == pi_slot(public_inputs.deep_view(), 4)
            &&& t.1.alpha@ == g1_view_of_pair(vk.vk_alpha_1.deep_view())
            &&& t.1.beta@ == g2_view_of_pairs(vk.vk_beta_2.deep_view())
            &&& t.1.gamma@ == g2_view_of_pairs(vk.vk_gamma_2.deep_view())
            &&& t.1.delta@ == g2_view_of_pairs(vk.vk_delta_2.deep_view())
            &&& t.1.alpha_beta@ == fp12_view_of_nested(vk.vk_alphabeta_12.deep_view())
            &&& t.1.w27@ == w27_view()
            &&& t.1.ic0@ == g1_view_of_pair(vk.ic.deep_view()[0])
            &&& t.1.ic1@ == g1_view_of_pair(vk.ic.deep_view()[1])
            &&& t.1.ic2@ == g1_view_of_pair(vk.ic.deep_view()[2])
            &&& t.1.ic3@ == g1_view_of_pair(vk.ic.deep_view()[3])
            &&& t.1.ic4@ == g1_view_of_pair(vk.ic.deep_view()[4])
            &&& t.1.ic5@ == g1_view_of_pair(vk.ic.deep_view()[5])
        },
        r matches Err(e) ==> {
            ||| {
                &&& vk.n_public != public_inputs@.len()
                &&& e == (ConvertError::SchemaMismatch {
                    observed: vk.n_public,
                    expected: public_inputs@.len() as usize,
                })
            }
            ||| {
                &&& vk.n_public == public_inputs@.len()
                &&& vk.ic@.len() != public_inputs@.len() + 1
                &&& e == (ConvertError::SchemaMismatch {
                    observed: vk.ic@.len() as usize,
                    expected: (public_inputs@.len() + 1) as usize,
                })
            }
            ||| {
                &&& vk.n_public == public_inputs@.len()
                &&& vk.ic@.len() == public_inputs@.len() + 1
                &&& !(is_dec_seq(proof.pi_a.deep_view()[1]) && dec_value(
                    proof.pi_a.deep_view()[1],
                ) < prime())
                &&& e == ConvertError::InvalidFieldElement
            }
            ||| {
                &&& vk.n_public == public_inputs@.len()
                &&& vk.ic@.len() == public_inputs@.len() + 1
                &&& is_dec_seq(proof.pi_a.deep_view()[1])
                &&& dec_value(proof.pi_a.deep_view()[1]) < prime()
                &&& vk.ic@.len() < ACCUMULATOR_SLOTS
                &&& e == (ConvertError::InsufficientAccumulatorPoints {
                    available: vk.ic@.len() as usize,
                })
            }
        },
{
    match validate_counts(vk, public_inputs) {
        Ok(()) => (),
        Err(e) => {
            return Err(e);
        },
    }
    let target_proof = match assemble_proof(proof, public_inputs) {
        Ok(t) => t,
        Err(e) => {
            return Err(e);
        },
    };
    let target_vk = match assemble_vk(vk) {
        Ok(t) => t,
        Err(e) => {
            return Err(e);
        },
    };
    Ok((target_proof, target_vk))
}

} // verus!
