use rusvm_js::config::{get_bool, get_nonan, get_text, get_usize, ConfigBag, HostValue};
use rusvm_js::data::{extract_data, find_support, ShapeError};
use rusvm_js::float_bits::{bits_is_nan, bits_is_zero, bits_to_usize};
use rusvm_js::params::{extract_params_newton, extract_params_problem, extract_params_smo};
use rusvm_js::problem::{prepare_problem, ProblemError, ProblemKind};
use rusvm_js::setup::{kernel_gamma, prepare_newton, prepare_smo, SetupError};

fn num(v: f64) -> HostValue {
    HostValue { number: v.to_bits(), boolean: None, text: None }
}

fn flag(b: bool) -> HostValue {
    HostValue { number: f64::NAN.to_bits(), boolean: Some(b), text: None }
}

fn text(s: &str) -> HostValue {
    HostValue { number: f64::NAN.to_bits(), boolean: None, text: Some(s.to_string()) }
}

fn bag(entries: Vec<(&str, HostValue)>) -> ConfigBag {
    let mut b = ConfigBag::new();
    for (k, v) in entries {
        b.insert(k.to_string(), v);
    }
    b
}

fn rows(x: &[&[f64]]) -> Vec<Vec<u64>> {
    x.iter().map(|r| r.iter().map(|v| v.to_bits()).collect()).collect()
}

#[test]
fn missing_key_gives_default_for_every_kind() {
    let b = bag(vec![("other", num(3.0))]);
    assert_eq!(get_nonan(&b, "tol", 2.5f64.to_bits()), 2.5f64.to_bits());
    assert_eq!(get_usize(&b, "max_steps", 17), 17);
    assert!(get_bool(&b, "second_order", true));
    assert!(!get_bool(&b, "second_order", false));
    assert_eq!(get_text(&b, "kind", "classification"), "classification");
}

#[test]
fn stored_nan_reads_as_default() {
    let b = bag(vec![("tol", num(f64::NAN)), ("max_steps", num(f64::NAN))]);
    assert_eq!(get_nonan(&b, "tol", 0.5f64.to_bits()), 0.5f64.to_bits());
    assert_eq!(get_usize(&b, "max_steps", 9), 9);
}

#[test]
fn stored_values_are_read() {
    let b = bag(vec![("tol", num(0.25)), ("flag", flag(true)), ("name", text("abc"))]);
    assert_eq!(get_nonan(&b, "tol", 1.0f64.to_bits()), 0.25f64.to_bits());
    assert!(get_bool(&b, "flag", false));
    assert_eq!(get_text(&b, "name", "x"), "abc");
}

#[test]
fn first_entry_for_a_key_wins() {
    let b = bag(vec![("tol", num(0.25)), ("tol", num(0.75))]);
    assert_eq!(get_nonan(&b, "tol", 1.0f64.to_bits()), 0.25f64.to_bits());
}

#[test]
fn non_boolean_value_gives_default_flag() {
    let b = bag(vec![("flag", num(1.0)), ("other", text("true"))]);
    assert!(!get_bool(&b, "flag", false));
    assert!(get_bool(&b, "other", true));
}

#[test]
fn integer_coercion_truncates_and_saturates() {
    let b = bag(vec![
        ("a", num(3.7)),
        ("b", num(-1.0)),
        ("c", num(1e30)),
        ("d", num(f64::INFINITY)),
        ("e", num(0.5)),
        ("f", num(4096.0)),
        ("g", num(9007199254740993.0)),
    ]);
    assert_eq!(get_usize(&b, "a", 0), 3);
    assert_eq!(get_usize(&b, "b", 5), 0);
    assert_eq!(get_usize(&b, "c", 0), usize::MAX);
    assert_eq!(get_usize(&b, "d", 0), usize::MAX);
    assert_eq!(get_usize(&b, "e", 7), 0);
    assert_eq!(get_usize(&b, "f", 0), 4096);
    assert_eq!(get_usize(&b, "g", 0), 9007199254740993.0f64 as usize);
}

#[test]
fn bit_helpers_match_floating_point() {
    for v in [0.0f64, -0.0, 1.0, -2.5, 1e-300, 5e-324, 123456.789, 1e19, 1.8e19, f64::MAX, f64::NEG_INFINITY] {
        assert_eq!(bits_is_nan(v.to_bits()), v.is_nan());
        assert_eq!(bits_is_zero(v.to_bits()), v == 0.0);
        assert_eq!(bits_to_usize(v.to_bits()), v as usize);
    }
    assert!(bits_is_nan(f64::NAN.to_bits()));
    assert_eq!(bits_to_usize(f64::NAN.to_bits()), 0);
}

#[test]
fn not_object_bag_gives_defaults() {
    let b = ConfigBag::not_object();
    assert_eq!(get_nonan(&b, "tol", 3.0f64.to_bits()), 3.0f64.to_bits());
    let (p, cache) = extract_params_smo(&b);
    assert_eq!(p, extract_params_smo(&ConfigBag::new()).0);
    assert_eq!(cache, 0);
}

#[test]
fn smo_defaults_are_the_solver_defaults() {
    let (p, cache) = extract_params_smo(&ConfigBag::new());
    assert_eq!(p.tol, 1e-4f64.to_bits());
    assert_eq!(p.max_steps, usize::MAX);
    assert_eq!(p.verbose, 0);
    assert!(!p.log_objective);
    assert!(p.second_order);
    assert_eq!(p.shrinking_period, 0);
    assert_eq!(p.shrinking_threshold, 1.0f64.to_bits());
    assert_eq!(p.time_limit, f64::INFINITY.to_bits());
    assert_eq!(cache, 0);
}

#[test]
fn smo_keys_overlay_defaults() {
    let b = bag(vec![
        ("tol", num(0.01)),
        ("max_steps", num(100.0)),
        ("verbose", num(2.0)),
        ("log_objective", flag(true)),
        ("second_order", flag(false)),
        ("shrinking_period", num(10.0)),
        ("shrinking_threshold", num(2.0)),
        ("time_limit", num(5.0)),
        ("cache_size", num(100.0)),
        ("unknown", num(1.0)),
    ]);
    let (p, cache) = extract_params_smo(&b);
    assert_eq!(p.tol, 0.01f64.to_bits());
    assert_eq!(p.max_steps, 100);
    assert_eq!(p.verbose, 2);
    assert!(p.log_objective);
    assert!(!p.second_order);
    assert_eq!(p.shrinking_period, 10);
    assert_eq!(p.shrinking_threshold, 2.0f64.to_bits());
    assert_eq!(p.time_limit, 5.0f64.to_bits());
    assert_eq!(cache, 100);
}

#[test]
fn newton_defaults_and_overlay() {
    let (d, cache) = extract_params_newton(&ConfigBag::new());
    assert_eq!(d.tol, 1e-8f64.to_bits());
    assert_eq!(d.max_steps, usize::MAX);
    assert_eq!(d.verbose, 0);
    assert_eq!(d.time_limit, f64::INFINITY.to_bits());
    assert_eq!(d.sigma, 0.001f64.to_bits());
    assert_eq!(d.eta, 0.1f64.to_bits());
    assert_eq!(d.max_back_steps, 8);
    assert_eq!(cache, 0);
    let b = bag(vec![("sigma", num(0.5)), ("max_back_steps", num(3.0)), ("cache_size", num(7.0))]);
    let (p, cache) = extract_params_newton(&b);
    assert_eq!(p.sigma, 0.5f64.to_bits());
    assert_eq!(p.max_back_steps, 3);
    assert_eq!(p.eta, d.eta);
    assert_eq!(cache, 7);
}

#[test]
fn problem_defaults_and_overlay() {
    let d = extract_params_problem(&ConfigBag::new());
    assert_eq!(d.lambda, 1.0f64.to_bits());
    assert_eq!(d.smoothing, 0.0f64.to_bits());
    assert_eq!(d.max_asum, f64::INFINITY.to_bits());
    assert_eq!(d.regularization, 1e-12f64.to_bits());
    let b = bag(vec![("lmbda", num(0.1)), ("smoothing", num(f64::NAN))]);
    let p = extract_params_problem(&b);
    assert_eq!(p.lambda, 0.1f64.to_bits());
    assert_eq!(p.smoothing, d.smoothing);
}

#[test]
fn every_kind_is_dispatched() {
    let y = vec![1.0f64.to_bits(), (-1.0f64).to_bits()];
    let shared = extract_params_problem(&bag(vec![("lmbda", num(0.5))]));
    let c = prepare_problem(&y, &bag(vec![("kind", text("classification")), ("lmbda", num(0.5))])).unwrap();
    assert_eq!(c.kind, ProblemKind::Classification { params: shared, shift: 1.0f64.to_bits() });
    assert_eq!(c.labels, y);
    let r = prepare_problem(&y, &bag(vec![("kind", text("regression")), ("lmbda", num(0.5))])).unwrap();
    assert_eq!(r.kind, ProblemKind::Regression { params: shared, epsilon: 1e-6f64.to_bits() });
    let l = prepare_problem(&y, &bag(vec![("kind", text("lssvm")), ("lmbda", num(0.5))])).unwrap();
    assert_eq!(l.kind, ProblemKind::LeastSquares { params: shared });
    let p = prepare_problem(&y, &bag(vec![("kind", text("poisson")), ("lmbda", num(0.5))])).unwrap();
    assert_eq!(p.kind, ProblemKind::Poisson { params: shared });
}

#[test]
fn kind_specific_keys_are_read() {
    let y = vec![1.0f64.to_bits()];
    let c = prepare_problem(&y, &bag(vec![("shift", num(0.5))])).unwrap();
    let d = extract_params_problem(&ConfigBag::new());
    assert_eq!(c.kind, ProblemKind::Classification { params: d, shift: 0.5f64.to_bits() });
    let r = prepare_problem(&y, &bag(vec![("kind", text("regression")), ("epsilon", num(0.2))])).unwrap();
    assert_eq!(r.kind, ProblemKind::Regression { params: d, epsilon: 0.2f64.to_bits() });
}

#[test]
fn missing_or_non_string_kind_is_classification() {
    let y = vec![1.0f64.to_bits()];
    let d = extract_params_problem(&ConfigBag::new());
    let expected = ProblemKind::Classification { params: d, shift: 1.0f64.to_bits() };
    assert_eq!(prepare_problem(&y, &ConfigBag::new()).unwrap().kind, expected);
    assert_eq!(prepare_problem(&y, &bag(vec![("kind", num(3.0))])).unwrap().kind, expected);
    assert_eq!(prepare_problem(&y, &ConfigBag::not_object()).unwrap().kind, expected);
}

#[test]
fn unknown_kind_is_reported() {
    let y = vec![1.0f64.to_bits()];
    let r = prepare_problem(&y, &bag(vec![("kind", text("bogus"))]));
    assert_eq!(r.err(), Some(ProblemError::UnknownKind("bogus".to_string())));
    let s = prepare_smo(rows(&[&[0.0, 0.0]]), &y, &bag(vec![("kind", text("bogus"))]), &ConfigBag::new());
    assert_eq!(s.err(), Some(SetupError::UnknownKind("bogus".to_string())));
}

#[test]
fn ragged_matrix_is_a_shape_failure() {
    let x = rows(&[&[0.0, 0.0], &[1.0]]);
    assert_eq!(extract_data(x.clone()).err(), Some(ShapeError { row: 1, expected: 2, found: 1 }));
    let y = vec![(-1.0f64).to_bits(), 1.0f64.to_bits()];
    let r = prepare_newton(x, &y, &ConfigBag::new(), &ConfigBag::new());
    assert_eq!(r.err(), Some(SetupError::Shape(ShapeError { row: 1, expected: 2, found: 1 })));
}

#[test]
fn rectangular_and_empty_matrices_are_accepted() {
    let x = rows(&[&[0.0, 0.0], &[1.0, 1.0], &[5.0, 5.0]]);
    assert_eq!(extract_data(x.clone()).unwrap(), x);
    assert_eq!(extract_data(Vec::new()).unwrap(), Vec::<Vec<u64>>::new());
}

#[test]
fn gamma_defaults_to_one() {
    assert_eq!(kernel_gamma(&ConfigBag::new()), 1.0f64.to_bits());
    assert_eq!(kernel_gamma(&bag(vec![("gamma", num(0.5))])), 0.5f64.to_bits());
    assert_eq!(kernel_gamma(&bag(vec![("gamma", num(f64::NAN))])), 1.0f64.to_bits());
}

#[test]
fn support_keeps_row_order() {
    let x = rows(&[&[0.0], &[1.0], &[2.0], &[3.0]]);
    let a: Vec<u64> = [0.0f64, 1.5, -0.0, -2.0].iter().map(|v| v.to_bits()).collect();
    let s = find_support(&a, &x);
    assert_eq!(s.indices, vec![1, 3]);
    assert_eq!(s.coefficients, vec![1.5f64.to_bits(), (-2.0f64).to_bits()]);
    assert_eq!(s.rows, vec![x[1].clone(), x[3].clone()]);
}

#[test]
fn support_wraps_around_rows_for_two_outputs() {
    let x = rows(&[&[0.0], &[1.0]]);
    let a: Vec<u64> = [0.0f64, 0.0, 0.0, 4.0].iter().map(|v| v.to_bits()).collect();
    let s = find_support(&a, &x);
    assert_eq!(s.indices, vec![3]);
    assert_eq!(s.rows, vec![x[1].clone()]);
}

#[test]
fn prepare_smo_collects_everything() {
    let x = rows(&[&[0.0, 0.0], &[1.0, 1.0]]);
    let y = vec![(-1.0f64).to_bits(), 1.0f64.to_bits()];
    let t = prepare_smo(
        x.clone(),
        &y,
        &bag(vec![("gamma", num(2.0))]),
        &bag(vec![("cache_size", num(100.0)), ("tol", num(0.5))]),
    )
    .unwrap();
    assert_eq!(t.data, x);
    assert_eq!(t.kernel.gamma, 2.0f64.to_bits());
    assert_eq!(t.kernel.cache_size, 100);
    assert_eq!(t.params.tol, 0.5f64.to_bits());
    assert_eq!(t.problem.labels, y);
}
