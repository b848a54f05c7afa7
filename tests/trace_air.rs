use stark_winterfell::air::{BoundaryAssertion, RpoHashAir, TraceShape};
use stark_winterfell::field::MODULUS;
use stark_winterfell::options::{BatchingMethod, FieldExtension, ProofParameters};
use stark_winterfell::prover::RpoProver;
use stark_winterfell::statement::PublicInputs;
use stark_winterfell::trace::{ExecutionTrace, TraceError};
use stark_winterfell::{TRACE_LENGTH, TRACE_WIDTH};

fn scenario_parameters() -> ProofParameters {
    ProofParameters {
        num_queries: 32,
        blowup_factor: 8,
        grinding_factor: 0,
        field_extension: FieldExtension::Base,
        fri_folding_factor: 2,
        fri_remainder_max_degree: 15,
        constraint_batching: BatchingMethod::Linear,
        deep_batching: BatchingMethod::Linear,
    }
}

fn shape() -> TraceShape {
    TraceShape { width: TRACE_WIDTH, length: TRACE_LENGTH }
}

#[test]
fn built_trace_has_shape_and_boundary_values() {
    let t = ExecutionTrace::build([11, 22, 33, 44], [55, 66]);
    assert_eq!(t.width(), 6);
    assert_eq!(t.length(), 8);
    for c in 0..4 {
        assert_eq!(t.get(c, 0), [11, 22, 33, 44][c]);
    }
    assert_eq!(t.get(4, 7), 55);
    assert_eq!(t.get(5, 7), 66);
}

#[test]
fn built_trace_is_zero_elsewhere() {
    let t = ExecutionTrace::build([11, 22, 33, 44], [55, 66]);
    for c in 0..6 {
        for r in 0..8 {
            let boundary = (r == 0 && c < 4) || (r == 7 && c >= 4);
            if !boundary {
                assert_eq!(t.get(c, r), 0, "cell ({c}, {r})");
            }
        }
    }
    assert_eq!(t.get(4, 0), 0);
    assert_eq!(t.get(0, 7), 0);
}

#[test]
fn built_trace_reduces_values() {
    let t = ExecutionTrace::build([MODULUS + 1, 2, 3, 4], [MODULUS, 6]);
    assert_eq!(t.get(0, 0), 1);
    assert_eq!(t.get(4, 7), 0);
}

#[test]
fn from_columns_accepts_trace_shape() {
    let mut cols = vec![vec![0u64; 8]; 6];
    cols[2][3] = 9;
    cols[5][7] = MODULUS + 2;
    let t = ExecutionTrace::from_columns(cols).unwrap();
    assert_eq!(t.get(2, 3), 9);
    assert_eq!(t.get(5, 7), 2);
    assert_eq!(t.columns().len(), 6);
}

#[test]
fn from_columns_rejects_wrong_width() {
    let cols = vec![vec![0u64; 8]; 5];
    assert_eq!(ExecutionTrace::from_columns(cols).unwrap_err(), TraceError::ShapeMismatch);
    let cols = vec![vec![0u64; 8]; 7];
    assert_eq!(ExecutionTrace::from_columns(cols).unwrap_err(), TraceError::ShapeMismatch);
}

#[test]
fn from_columns_rejects_wrong_length() {
    let mut cols = vec![vec![0u64; 8]; 6];
    cols[3] = vec![0u64; 16];
    assert_eq!(ExecutionTrace::from_columns(cols).unwrap_err(), TraceError::ShapeMismatch);
    let cols = vec![vec![0u64; 4]; 6];
    assert_eq!(ExecutionTrace::from_columns(cols).unwrap_err(), TraceError::ShapeMismatch);
}

#[test]
fn air_declares_three_linear_constraints_and_six_assertions() {
    let s = PublicInputs::new([1, 2, 3, 4], [5, 6]);
    let air = RpoHashAir::new(shape(), s, scenario_parameters()).unwrap();
    let ctx = air.context();
    assert_eq!(ctx.transition_degrees, vec![1, 1, 1]);
    assert_eq!(ctx.num_assertions, 6);
    assert_eq!(ctx.trace_width, 6);
    assert_eq!(ctx.trace_length, 8);
    assert_eq!(ctx.options, scenario_parameters());
}

#[test]
fn air_assertions_fix_boundary_cells() {
    let s = PublicInputs::new([1, 2, 3, 4], [5, 6]);
    let air = RpoHashAir::new(shape(), s, scenario_parameters()).unwrap();
    let expected = vec![
        BoundaryAssertion { column: 0, step: 0, value: 1 },
        BoundaryAssertion { column: 1, step: 0, value: 2 },
        BoundaryAssertion { column: 2, step: 0, value: 3 },
        BoundaryAssertion { column: 3, step: 0, value: 4 },
        BoundaryAssertion { column: 4, step: 7, value: 5 },
        BoundaryAssertion { column: 5, step: 7, value: 6 },
    ];
    assert_eq!(air.get_assertions(), expected);
    assert_eq!(air.get_assertions(), air.get_assertions());
}

#[test]
fn transition_constraints_are_zero() {
    let s = PublicInputs::new([1, 2, 3, 4], [5, 6]);
    let air = RpoHashAir::new(shape(), s, scenario_parameters()).unwrap();
    let mut result = vec![7u64, 8, 9];
    air.evaluate_transition(&mut result);
    assert_eq!(result, vec![0, 0, 0]);
}

#[test]
fn prover_keeps_its_parameters() {
    let p = RpoProver::new(scenario_parameters());
    assert_eq!(*p.options(), scenario_parameters());
}

#[test]
fn prover_reads_statement_from_trace() {
    let t = ExecutionTrace::build([11, 22, 33, 44], [55, 66]);
    let p = RpoProver::new(scenario_parameters());
    assert_eq!(p.get_pub_inputs(&t), PublicInputs::new([11, 22, 33, 44], [55, 66]));
}

#[test]
fn trace_meets_assertions_of_its_statement() {
    let t = ExecutionTrace::build([11, 22, 33, 44], [55, 66]);
    let s = RpoProver::new(scenario_parameters()).get_pub_inputs(&t);
    let air = RpoHashAir::new(shape(), s, scenario_parameters()).unwrap();
    for a in air.get_assertions() {
        assert_eq!(t.get(a.column, a.step), a.value);
    }
}

#[test]
fn flipped_digest_element_changes_one_assertion() {
    let s = PublicInputs::new([1, 2, 3, 4], [5, 6]);
    let tampered = PublicInputs::new([1, 2, 3, 4], [5, 7]);
    let a = RpoHashAir::new(shape(), s, scenario_parameters()).unwrap().get_assertions();
    let b = RpoHashAir::new(shape(), tampered, scenario_parameters()).unwrap().get_assertions();
    for i in 0..5 {
        assert_eq!(a[i], b[i]);
    }
    assert_ne!(a[5], b[5]);
}

#[test]
fn scenario_preimage_statement_trace_and_assertions() {
    let statement = PublicInputs::from_preimage([111, 222, 333, 444]);
    let trace = ExecutionTrace::build(statement.input, statement.hash);
    let prover = RpoProver::new(scenario_parameters());
    let advertised = prover.get_pub_inputs(&trace);
    assert_eq!(advertised, statement);
    assert_eq!(advertised.to_elements().len(), 6);

    let air = RpoHashAir::new(shape(), advertised, scenario_parameters()).unwrap();
    let mut flipped = statement;
    flipped.hash[1] = (flipped.hash[1] + 1) % MODULUS;
    let tampered = RpoHashAir::new(shape(), flipped, scenario_parameters()).unwrap();
    assert_ne!(air.get_assertions(), tampered.get_assertions());
    for a in air.get_assertions() {
        assert_eq!(trace.get(a.column, a.step), a.value);
    }
}

#[test]
fn air_rejects_other_trace_shapes() {
    let s = PublicInputs::new([1, 2, 3, 4], [5, 6]);
    let narrow = TraceShape { width: 4, length: TRACE_LENGTH };
    let long = TraceShape { width: TRACE_WIDTH, length: 16 };
    assert!(matches!(
        RpoHashAir::new(narrow, s, scenario_parameters()),
        Err(TraceError::ShapeMismatch)
    ));
    assert!(matches!(
        RpoHashAir::new(long, s, scenario_parameters()),
        Err(TraceError::ShapeMismatch)
    ));
}
