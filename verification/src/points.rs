//! Curve-point and extension-field transcoding: pure structural
//! repackaging between the source layout (nested coordinate pairs) and
//! the target layout (named fields), plus the one arithmetic operation,
//! negation of a G1 point's y-coordinate.
//!
//! The positional mapping is fixed: a G2 coordinate pair `[c0, c1]`
//! becomes the named components `c0`, `c1`, and the `2 x 3 x 2` nested
//! extension-field element becomes the twelve fields `g00..g21`,
//! `h00..h21` in row/column order.

use vstd::prelude::*;
use crate::decimal::{dec_string_of, dec_value, is_dec_seq};
use crate::errors::ConvertError;
use crate::field::{neg_mod, negate_field_element, prime};

verus! {

/// An affine point on the base curve; coordinates are decimal-string
/// field elements.
#[derive(Debug)]
pub struct G1Point {
    pub x: String,
    pub y: String,
}

/// An affine point on the quadratic-extension twist, with the two
/// components of each coordinate flattened into named fields.
#[derive(Debug)]
pub struct G2Point {
    pub x_c0: String,
    pub x_c1: String,
    pub y_c0: String,
    pub y_c1: String,
}

/// A degree-12 extension-field element in the flattened target layout.
#[derive(Debug)]
pub struct Fp12Element {
    pub g00: String,
    pub g01: String,
    pub g10: String,
    pub g11: String,
    pub g20: String,
    pub g21: String,
    pub h00: String,
    pub h01: String,
    pub h10: String,
    pub h11: String,
    pub h20: String,
    pub h21: String,
}

/// Mathematical reading of a G1 point: its two coordinate strings.
pub struct G1View {
    pub x: Seq<char>,
    pub y: Seq<char>,
}

/// Mathematical reading of a G2 point: its four component strings.
pub struct G2View {
    pub x_c0: Seq<char>,
    pub x_c1: Seq<char>,
    pub y_c0: Seq<char>,
    pub y_c1: Seq<char>,
}

/// Mathematical reading of a flattened extension-field element.
pub struct Fp12View {
    pub g00: Seq<char>,
    pub g01: Seq<char>,
    pub g10: Seq<char>,
    pub g11: Seq<char>,
    pub g20: Seq<char>,
    pub g21: Seq<char>,
    pub h00: Seq<char>,
    pub h01: Seq<char>,
    pub h10: Seq<char>,
    pub h11: Seq<char>,
    pub h20: Seq<char>,
    pub h21: Seq<char>,
}

impl View for G1Point {
    type V = G1View;

    open spec fn view(&self) -> G1View {
        G1View { x: self.x@, y: self.y@ }
    }
}

impl View for G2Point {
    type V = G2View;

    open spec fn view(&self) -> G2View {
        G2View { x_c0: self.x_c0@, x_c1: self.x_c1@, y_c0: self.y_c0@, y_c1: self.y_c1@ }
    }
}

impl View for Fp12Element {
    type V = Fp12View;

    open spec fn view(&self) -> Fp12View {
        Fp12View {
            g00: self.g00@,
            g01: self.g01@,
            g10: self.g10@,
            g11: self.g11@,
            g20: self.g20@,
            g21: self.g21@,
            h00: self.h00@,
            h01: self.h01@,
            h10: self.h10@,
            h11: self.h11@,
            h20: self.h20@,
            h21: self.h21@,
        }
    }
}

/// A raw G1 pair has at least an x and a y entry.
pub open spec fn g1_pair_wf(w: Seq<Seq<char>>) -> bool {
    w.len() >= 2
}

/// A raw G2 point has at least two coordinate pairs of at least two
/// components each.
pub open spec fn g2_pairs_wf(w: Seq<Seq<Seq<char>>>) -> bool {
    &&& w.len() >= 2
    &&& w[0].len() >= 2
    &&& w[1].len() >= 2
}

/// A raw extension-field element has two groups of three pairs of two
/// components.
pub open spec fn fp12_nested_wf(w: Seq<Seq<Seq<Seq<char>>>>) -> bool {
    &&& w.len() >= 2
    &&& w[0].len() >= 3
    &&& w[1].len() >= 3
    &&& w[0][0].len() >= 2
    &&& w[0][1].len() >= 2
    &&& w[0][2].len() >= 2
    &&& w[1][0].len() >= 2
    &&& w[1][1].len() >= 2
    &&& w[1][2].len() >= 2
}

/// The target reading of a raw G1 pair.
pub open spec fn g1_view_of_pair(w: Seq<Seq<char>>) -> G1View {
    G1View { x: w[0], y: w[1] }
}

/// The target reading of a raw nested G2 point.
pub open spec fn g2_view_of_pairs(w: Seq<Seq<Seq<char>>>) -> G2View {
    G2View { x_c0: w[0][0], x_c1: w[0][1], y_c0: w[1][0], y_c1: w[1][1] }
}

/// The nested layout of a target G2 point: the inverse relabeling.
pub open spec fn g2_pairs_of_view(g: G2View) -> Seq<Seq<Seq<char>>> {
    seq![seq![g.x_c0, g.x_c1], seq![g.y_c0, g.y_c1]]
}

/// The flattened reading of a raw nested extension-field element.
pub open spec fn fp12_view_of_nested(w: Seq<Seq<Seq<Seq<char>>>>) -> Fp12View {
    Fp12View {
        g00: w[0][0][0],
        g01: w[0][0][1],
        g10: w[0][1][0],
        g11: w[0][1][1],
        g20: w[0][2][0],
        g21: w[0][2][1],
        h00: w[1][0][0],
        h01: w[1][0][1],
        h10: w[1][1][0],
        h11: w[1][1][1],
        h20: w[1][2][0],
        h21: w[1][2][1],
    }
}

/// Repackages a raw G1 pair; no arithmetic.  A third entry, if present,
/// is ignored.
pub fn convert_g1_point(point: &Vec<String>) -> (r: G1Point)
    requires
        g1_pair_wf(point.deep_view()),
    ensures
        r@ == g1_view_of_pair(point.deep_view()),
{
    G1Point { x: point[0].clone(), y: point[1].clone() }
}

/// Repackages a raw nested G2 point; no arithmetic.  Pairs and
/// components beyond the first two are ignored.
pub fn convert_g2_point(point: &Vec<Vec<String>>) -> (r: G2Point)
    requires
        g2_pairs_wf(point.deep_view()),
    ensures
        r@ == g2_view_of_pairs(point.deep_view()),
{
    G2Point {
        x_c0: point[0][0].clone(),
        x_c1: point[0][1].clone(),
        y_c0: point[1][0].clone(),
        y_c1: point[1][1].clone(),
    }
}

/// The nested layout of a target G2 point, for converting back.
pub fn g2_point_to_pairs(point: &G2Point) -> (r: Vec<Vec<String>>)
    ensures
        r.deep_view() == g2_pairs_of_view(point@),
{
    let mut row_x: Vec<String> = Vec::new();
    row_x.push(point.x_c0.clone());
    row_x.push(point.x_c1.clone());
    let mut row_y: Vec<String> = Vec::new();
    row_y.push(point.y_c0.clone());
    row_y.push(point.y_c1.clone());
    let mut r: Vec<Vec<String>> = Vec::new();
    r.push(row_x);
    r.push(row_y);
    proof {
        assert(r.deep_view() =~~= g2_pairs_of_view(point@));
    }
    r
}

/// Relabeling a G2 point to the target layout and back recovers the
/// consumed `2 x 2` nested pair exactly; on an exactly `2 x 2` input the
/// round trip is the identity.
pub proof fn lemma_g2_round_trip(w: Seq<Seq<Seq<char>>>)
    requires
        g2_pairs_wf(w),
    ensures
        g2_pairs_of_view(g2_view_of_pairs(w))
            == seq![seq![w[0][0], w[0][1]], seq![w[1][0], w[1][1]]],
        w.len() == 2 && w[0].len() == 2 && w[1].len() == 2
            ==> g2_pairs_of_view(g2_view_of_pairs(w)) == w,
{
    assert(g2_pairs_of_view(g2_view_of_pairs(w))
        =~~= seq![seq![w[0][0], w[0][1]], seq![w[1][0], w[1][1]]]);
    if w.len() == 2 && w[0].len() == 2 && w[1].len() == 2 {
        assert(g2_pairs_of_view(g2_view_of_pairs(w)) =~~= w);
    }
}

/// Relabeling in the other order is the identity on every target G2
/// point.
pub proof fn lemma_g2_round_trip_target(g: G2View)
    ensures
        g2_view_of_pairs(g2_pairs_of_view(g)) == g,
{
}

/// Flattens a raw `2 x 3 x 2` extension-field element into its twelve
/// named components, preserving row/column order; no arithmetic.
pub fn flatten_fp12(alphabeta12: &Vec<Vec<Vec<String>>>) -> (r: Fp12Element)
    requires
        fp12_nested_wf(alphabeta12.deep_view()),
    ensures
        r@ == fp12_view_of_nested(alphabeta12.deep_view()),
{
    let g = &alphabeta12[0];
    let h = &alphabeta12[1];
    Fp12Element {
        g00: g[0][0].clone(),
        g01: g[0][1].clone(),
        g10: g[1][0].clone(),
        g11: g[1][1].clone(),
        g20: g[2][0].clone(),
        g21: g[2][1].clone(),
        h00: h[0][0].clone(),
        h01: h[0][1].clone(),
        h10: h[1][0].clone(),
        h11: h[1][1].clone(),
        h20: h[2][0].clone(),
        h21: h[2][1].clone(),
    }
}

/// The fixed extension-field constant intrinsic to the target verifier's
/// trusted setup; independent of every input.
pub open spec fn w27_view() -> Fp12View {
    Fp12View {
        g00: "0"@,
        g01: "0"@,
        g10: "0"@,
        g11: "0"@,
        g20: "8204864362109909869166472767738877274689483185363591877943943203703805152849"@,
        g21: "17912368812864921115467448876996876278487602260484145953989158612875588124088"@,
        h00: "0"@,
        h01: "0"@,
        h10: "0"@,
        h11: "0"@,
        h20: "0"@,
        h21: "0"@,
    }
}

/// Builds the fixed `w27` constant of the target verification key.
pub fn create_default_w27() -> (r: Fp12Element)
    ensures
        r@ == w27_view(),
{
    Fp12Element {
        g00: String::from_str("0"),
        g01: String::from_str("0"),
        g10: String::from_str("0"),
        g11: String::from_str("0"),
        g20: String::from_str(
            "8204864362109909869166472767738877274689483185363591877943943203703805152849"),
        g21: String::from_str(
            "17912368812864921115467448876996876278487602260484145953989158612875588124088"),
        h00: String::from_str("0"),
        h01: String::from_str("0"),
        h10: String::from_str("0"),
        h11: String::from_str("0"),
        h20: String::from_str("0"),
        h21: String::from_str("0"),
    }
}

/// Negates the y-coordinate of a raw G1 pair over the base field and
/// repackages the point.  Succeeds exactly when the y entry is a
/// decimal string below the prime.
pub fn negate_g1_point(point: &Vec<String>) -> (r: Result<G1Point, ConvertError>)
    requires
        g1_pair_wf(point.deep_view()),
    ensures
        r is Ok <==> is_dec_seq(point.deep_view()[1]) && dec_value(point.deep_view()[1]) < prime(),
        r matches Ok(g) ==> {
            &&& g@.x == point.deep_view()[0]
            &&& g@.y == dec_string_of(neg_mod(dec_value(point.deep_view()[1])))
        },
        r matches Err(e) ==> e == ConvertError::InvalidFieldElement,
{
    match negate_field_element(point[1].as_str()) {
        Ok(y) => Ok(G1Point { x: point[0].clone(), y }),
        Err(e) => Err(e),
    }
}

} // verus!
