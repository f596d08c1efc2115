use o1js_convert::assemble::{
    assemble_proof, assemble_vk, convert_documents, validate_counts,
};
use o1js_convert::errors::{ConvertError, InputFault};
use o1js_convert::points::{
    convert_g1_point, convert_g2_point, create_default_w27, flatten_fp12, g2_point_to_pairs,
};
use o1js_convert::serialize::{render_proof_json, render_vk_json};
use o1js_convert::source::{SnarkjsProof, SnarkjsVK};

fn strs(v: &[&str]) -> Vec<String> {
    v.iter().map(|s| s.to_string()).collect()
}

fn pairs(v: &[&[&str]]) -> Vec<Vec<String>> {
    v.iter().map(|p| strs(p)).collect()
}

fn example_proof() -> SnarkjsProof {
    SnarkjsProof::new(
        strs(&["5", "21888242871839275222246405745257275088548364400416034343698204186575808495612", "1"]),
        pairs(&[&["1", "2"], &["3", "4"], &["1", "0"]]),
        strs(&["6", "7"]),
    )
    .unwrap()
}

fn example_alphabeta() -> Vec<Vec<Vec<String>>> {
    vec![
        pairs(&[&["a1", "a2"], &["a3", "a4"], &["a5", "a6"]]),
        pairs(&[&["b1", "b2"], &["b3", "b4"], &["b5", "b6"]]),
    ]
}

fn example_vk(n_public: usize, ic_len: usize) -> SnarkjsVK {
    let ic: Vec<Vec<String>> = (0..ic_len)
        .map(|i| strs(&[&format!("icx{}", i), &format!("icy{}", i)]))
        .collect();
    SnarkjsVK::new(
        n_public,
        strs(&["10", "11"]),
        pairs(&[&["20", "21"], &["22", "23"]]),
        pairs(&[&["30", "31"], &["32", "33"]]),
        pairs(&[&["40", "41"], &["42", "43"]]),
        example_alphabeta(),
        ic,
    )
    .unwrap()
}

#[test]
fn g1_conversion_is_positional() {
    let p = convert_g1_point(&strs(&["8", "9", "1"]));
    assert_eq!(p.x, "8");
    assert_eq!(p.y, "9");
}

#[test]
fn g2_conversion_is_positional() {
    let p = convert_g2_point(&pairs(&[&["1", "2"], &["3", "4"], &["1", "0"]]));
    assert_eq!(p.x_c0, "1");
    assert_eq!(p.x_c1, "2");
    assert_eq!(p.y_c0, "3");
    assert_eq!(p.y_c1, "4");
}

#[test]
fn g2_round_trip_recovers_pairs() {
    let original = pairs(&[&["1", "2"], &["3", "4"]]);
    let converted = convert_g2_point(&original);
    let back = g2_point_to_pairs(&converted);
    assert_eq!(back, original);
}

#[test]
fn fp12_flattening_is_positional() {
    let f = flatten_fp12(&example_alphabeta());
    assert_eq!(f.g00, "a1");
    assert_eq!(f.g01, "a2");
    assert_eq!(f.g10, "a3");
    assert_eq!(f.g11, "a4");
    assert_eq!(f.g20, "a5");
    assert_eq!(f.g21, "a6");
    assert_eq!(f.h00, "b1");
    assert_eq!(f.h01, "b2");
    assert_eq!(f.h10, "b3");
    assert_eq!(f.h11, "b4");
    assert_eq!(f.h20, "b5");
    assert_eq!(f.h21, "b6");
}

#[test]
fn w27_constant_values() {
    let w = create_default_w27();
    assert_eq!(w.g00, "0");
    assert_eq!(w.g01, "0");
    assert_eq!(w.g10, "0");
    assert_eq!(w.g11, "0");
    assert_eq!(
        w.g20,
        "8204864362109909869166472767738877274689483185363591877943943203703805152849",
    );
    assert_eq!(
        w.g21,
        "17912368812864921115467448876996876278487602260484145953989158612875588124088",
    );
    assert_eq!(w.h00, "0");
    assert_eq!(w.h01, "0");
    assert_eq!(w.h10, "0");
    assert_eq!(w.h11, "0");
    assert_eq!(w.h20, "0");
    assert_eq!(w.h21, "0");
}

#[test]
fn proof_parser_rejects_short_pi_a() {
    let r = SnarkjsProof::new(
        strs(&["5"]),
        pairs(&[&["1", "2"], &["3", "4"]]),
        strs(&["6", "7"]),
    );
    assert_eq!(r.unwrap_err(), ConvertError::MalformedInput(InputFault::ProofPiA));
}

#[test]
fn proof_parser_rejects_short_pi_b() {
    let r = SnarkjsProof::new(
        strs(&["5", "6"]),
        pairs(&[&["1"], &["3", "4"]]),
        strs(&["6", "7"]),
    );
    assert_eq!(r.unwrap_err(), ConvertError::MalformedInput(InputFault::ProofPiB));
}

#[test]
fn proof_parser_rejects_short_pi_c() {
    let r = SnarkjsProof::new(
        strs(&["5", "6"]),
        pairs(&[&["1", "2"], &["3", "4"]]),
        strs(&["6"]),
    );
    assert_eq!(r.unwrap_err(), ConvertError::MalformedInput(InputFault::ProofPiC));
}

#[test]
fn vk_parser_rejects_short_accumulator_point() {
    let r = SnarkjsVK::new(
        1,
        strs(&["10", "11"]),
        pairs(&[&["20", "21"], &["22", "23"]]),
        pairs(&[&["30", "31"], &["32", "33"]]),
        pairs(&[&["40", "41"], &["42", "43"]]),
        example_alphabeta(),
        pairs(&[&["1", "2"], &["3"]]),
    );
    assert_eq!(r.unwrap_err(), ConvertError::MalformedInput(InputFault::VkIc));
}

#[test]
fn vk_parser_rejects_malformed_alphabeta() {
    let r = SnarkjsVK::new(
        1,
        strs(&["10", "11"]),
        pairs(&[&["20", "21"], &["22", "23"]]),
        pairs(&[&["30", "31"], &["32", "33"]]),
        pairs(&[&["40", "41"], &["42", "43"]]),
        vec![pairs(&[&["a1", "a2"], &["a3", "a4"]])],
        pairs(&[&["1", "2"]]),
    );
    assert_eq!(r.unwrap_err(), ConvertError::MalformedInput(InputFault::VkAlphaBeta12));
}

#[test]
fn validation_rejects_count_mismatch() {
    // nPublic = 3 against two public inputs
    let vk = example_vk(3, 4);
    let inputs = strs(&["1", "2"]);
    let r = validate_counts(&vk, &inputs);
    assert_eq!(r.unwrap_err(), ConvertError::SchemaMismatch { observed: 3, expected: 2 });
}

#[test]
fn validation_rejects_accumulator_mismatch() {
    let vk = example_vk(2, 4);
    let inputs = strs(&["1", "2"]);
    let r = validate_counts(&vk, &inputs);
    assert_eq!(r.unwrap_err(), ConvertError::SchemaMismatch { observed: 4, expected: 3 });
}

#[test]
fn validation_accepts_matching_counts() {
    let vk = example_vk(2, 3);
    let inputs = strs(&["1", "2"]);
    assert!(validate_counts(&vk, &inputs).is_ok());
}

#[test]
fn pipeline_rejects_mismatch_before_assembly() {
    let proof = example_proof();
    let vk = example_vk(3, 4);
    let inputs = strs(&["1", "2"]);
    let r = convert_documents(&proof, &inputs, &vk);
    assert_eq!(r.unwrap_err(), ConvertError::SchemaMismatch { observed: 3, expected: 2 });
}

#[test]
fn assembly_succeeds_with_six_accumulators() {
    // exactly 6 accumulator points and 5 public inputs
    let proof = example_proof();
    let vk = example_vk(5, 6);
    let inputs = strs(&["1", "2", "3", "4", "5"]);
    let (tp, tvk) = convert_documents(&proof, &inputs, &vk).unwrap();
    assert_eq!(tp.pi1, "1");
    assert_eq!(tp.pi5, "5");
    // ic0..ic5 map positionally to the accumulator points
    assert_eq!(tvk.ic0.x, "icx0");
    assert_eq!(tvk.ic0.y, "icy0");
    assert_eq!(tvk.ic1.x, "icx1");
    assert_eq!(tvk.ic2.x, "icx2");
    assert_eq!(tvk.ic3.x, "icx3");
    assert_eq!(tvk.ic4.x, "icx4");
    assert_eq!(tvk.ic5.x, "icx5");
    assert_eq!(tvk.ic5.y, "icy5");
    assert_eq!(tvk.alpha.x, "10");
    assert_eq!(tvk.beta.x_c0, "20");
    assert_eq!(tvk.gamma.y_c0, "32");
    assert_eq!(tvk.delta.y_c1, "43");
    assert_eq!(tvk.alpha_beta.g00, "a1");
    assert_eq!(tvk.alpha_beta.h21, "b6");
}

#[test]
fn assembly_rejects_fewer_than_six_accumulators() {
    let vk = example_vk(2, 3);
    let r = assemble_vk(&vk);
    assert_eq!(r.unwrap_err(), ConvertError::InsufficientAccumulatorPoints { available: 3 });
}

#[test]
fn pipeline_reports_insufficient_accumulators() {
    let proof = example_proof();
    let vk = example_vk(2, 3);
    let inputs = strs(&["10", "20"]);
    let r = convert_documents(&proof, &inputs, &vk);
    assert_eq!(r.unwrap_err(), ConvertError::InsufficientAccumulatorPoints { available: 3 });
}

#[test]
fn padding_defaults_missing_slots_to_zero() {
    // two public inputs fill pi1, pi2; the rest default to "0"
    let proof = example_proof();
    let inputs = strs(&["7", "9"]);
    let tp = assemble_proof(&proof, &inputs).unwrap();
    assert_eq!(tp.pi1, "7");
    assert_eq!(tp.pi2, "9");
    assert_eq!(tp.pi3, "0");
    assert_eq!(tp.pi4, "0");
    assert_eq!(tp.pi5, "0");
}

#[test]
fn end_to_end_example_proof() {
    let proof = example_proof();
    let inputs = strs(&["10", "20"]);
    let tp = assemble_proof(&proof, &inputs).unwrap();
    assert_eq!(tp.neg_a.x, "5");
    assert_eq!(tp.neg_a.y, "5");
    assert_eq!(tp.b.x_c0, "1");
    assert_eq!(tp.b.x_c1, "2");
    assert_eq!(tp.b.y_c0, "3");
    assert_eq!(tp.b.y_c1, "4");
    assert_eq!(tp.c.x, "6");
    assert_eq!(tp.c.y, "7");
    assert_eq!(tp.pi1, "10");
    assert_eq!(tp.pi2, "20");
    assert_eq!(tp.pi3, "0");
    assert_eq!(tp.pi4, "0");
    assert_eq!(tp.pi5, "0");
}

#[test]
fn assembly_rejects_invalid_field_element() {
    let proof = SnarkjsProof::new(
        strs(&["5", "not-a-number"]),
        pairs(&[&["1", "2"], &["3", "4"]]),
        strs(&["6", "7"]),
    )
    .unwrap();
    let inputs = strs(&[]);
    let r = assemble_proof(&proof, &inputs);
    assert_eq!(r.unwrap_err(), ConvertError::InvalidFieldElement);
}

#[test]
fn rendered_proof_parses_back() {
    let proof = example_proof();
    let inputs = strs(&["10", "20"]);
    let tp = assemble_proof(&proof, &inputs).unwrap();
    let text = render_proof_json(&tp);
    let v: serde_json::Value = serde_json::from_str(&text).unwrap();
    assert_eq!(v["negA"]["x"], "5");
    assert_eq!(v["negA"]["y"], "5");
    assert_eq!(v["B"]["x_c0"], "1");
    assert_eq!(v["B"]["y_c1"], "4");
    assert_eq!(v["C"]["x"], "6");
    assert_eq!(v["pi1"], "10");
    assert_eq!(v["pi5"], "0");
}

#[test]
fn rendered_vk_parses_back() {
    let vk = example_vk(5, 6);
    let tvk = assemble_vk(&vk).unwrap();
    let text = render_vk_json(&tvk);
    let v: serde_json::Value = serde_json::from_str(&text).unwrap();
    assert_eq!(v["alpha"]["x"], "10");
    assert_eq!(v["beta"]["x_c0"], "20");
    assert_eq!(
        v["w27"]["g20"],
        "8204864362109909869166472767738877274689483185363591877943943203703805152849",
    );
    assert_eq!(v["ic5"]["y"], "icy5");
    assert_eq!(v["alpha_beta"]["h21"], "b6");
}

#[test]
fn rendering_escapes_strings() {
    let proof = SnarkjsProof::new(
        strs(&["5", "7", "1"]),
        pairs(&[&["1", "2"], &["3", "4"]]),
        strs(&["say \"hi\"", "back\\slash\nnewline"]),
    )
    .unwrap();
    let inputs = strs(&[]);
    let tp = assemble_proof(&proof, &inputs).unwrap();
    let text = render_proof_json(&tp);
    let v: serde_json::Value = serde_json::from_str(&text).unwrap();
    assert_eq!(v["C"]["x"], "say \"hi\"");
    assert_eq!(v["C"]["y"], "back\\slash\nnewline");
}

#[test]
fn rendered_proof_exact_text() {
    let proof = example_proof();
    let inputs = strs(&["10", "20"]);
    let tp = assemble_proof(&proof, &inputs).unwrap();
    let text = render_proof_json(&tp);
    let mut expected = String::new();
    expected.push_str("{\n");
    expected.push_str("  \"negA\": {\n    \"x\": \"5\",\n    \"y\": \"5\"\n  },\n");
    expected.push_str(
        "  \"B\": {\n    \"x_c0\": \"1\",\n    \"x_c1\": \"2\",\n    \"y_c0\": \"3\",\n    \"y_c1\": \"4\"\n  },\n",
    );
    expected.push_str("  \"C\": {\n    \"x\": \"6\",\n    \"y\": \"7\"\n  },\n");
    expected.push_str("  \"pi1\": \"10\",\n");
    expected.push_str("  \"pi2\": \"20\",\n");
    expected.push_str("  \"pi3\": \"0\",\n");
    expected.push_str("  \"pi4\": \"0\",\n");
    expected.push_str("  \"pi5\": \"0\"\n");
    expected.push_str("}");
    assert_eq!(text, expected);
}
