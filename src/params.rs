//! Solver and problem parameter records, built from a configuration bag by
//! overlaying the solver library's defaults at the keys the bag holds.
//!
//! Floating-point fields hold IEEE-754 bit patterns.
use crate::config::{
    count_or, flag_or, get_bool, get_nonan, get_usize, lookup, number_or, ConfigBag, HostValue,
};
use crate::float_bits::{is_nan, saturating_usize};
use vstd::prelude::*;

verus! {

/// Parameters of the iterative (SMO) solver.
#[derive(Clone, Copy, Debug, PartialEq, Eq, Structural)]
pub struct SmoParams {
    pub tol: u64,
    pub max_steps: usize,
    pub verbose: usize,
    pub log_objective: bool,
    pub second_order: bool,
    pub shrinking_period: usize,
    pub shrinking_threshold: u64,
    pub time_limit: u64,
}

/// Parameters of the Newton solver.
#[derive(Clone, Copy, Debug, PartialEq, Eq, Structural)]
pub struct NewtonParams {
    pub tol: u64,
    pub max_steps: usize,
    pub verbose: usize,
    pub time_limit: u64,
    pub sigma: u64,
    pub eta: u64,
    pub max_back_steps: usize,
}

/// Parameters shared by every problem kind.
#[derive(Clone, Copy, Debug, PartialEq, Eq, Structural)]
pub struct ProblemParams {
    pub lambda: u64,
    pub smoothing: u64,
    pub max_asum: u64,
    pub regularization: u64,
}

/// Bits of `1e-4`.
pub const SMO_DEFAULT_TOL: u64 = 0x3f1a_36e2_eb1c_432d;

/// Bits of `1e-8`.
pub const NEWTON_DEFAULT_TOL: u64 = 0x3e45_798e_e230_8c3a;

/// Bits of `1.0`.
pub const ONE: u64 = 0x3ff0_0000_0000_0000;

/// Bits of `+infinity`.
pub const INFINITY: u64 = 0x7ff0_0000_0000_0000;

/// Bits of `0.001`.
pub const NEWTON_DEFAULT_SIGMA: u64 = 0x3f50_624d_d2f1_a9fc;

/// Bits of `0.1`.
pub const NEWTON_DEFAULT_ETA: u64 = 0x3fb9_9999_9999_999a;

/// Bits of `1e-12`.
pub const DEFAULT_REGULARIZATION: u64 = 0x3d71_9799_812d_ea11;

/// The solver library's default SMO parameters.
pub open spec fn smo_defaults() -> SmoParams {
    SmoParams {
        tol: SMO_DEFAULT_TOL,
        max_steps: usize::MAX,
        verbose: 0,
        log_objective: false,
        second_order: true,
        shrinking_period: 0,
        shrinking_threshold: ONE,
        time_limit: INFINITY,
    }
}

/// The solver library's default Newton parameters.
pub open spec fn newton_defaults() -> NewtonParams {
    NewtonParams {
        tol: NEWTON_DEFAULT_TOL,
        max_steps: usize::MAX,
        verbose: 0,
        time_limit: INFINITY,
        sigma: NEWTON_DEFAULT_SIGMA,
        eta: NEWTON_DEFAULT_ETA,
        max_back_steps: 8,
    }
}

/// The solver library's default problem parameters.
pub open spec fn problem_defaults() -> ProblemParams {
    ProblemParams { lambda: ONE, smoothing: 0, max_asum: INFINITY, regularization: DEFAULT_REGULARIZATION }
}

/// Relies on rusvm::smo::Params::new for the default SMO parameters.
#[verifier::external_body]
fn default_smo_params() -> (r: SmoParams)
    ensures
        r == smo_defaults(),
{
    let p = rusvm::smo::Params::new();
    SmoParams {
        tol: p.tol.to_bits(),
        max_steps: p.max_steps,
        verbose: p.verbose,
        log_objective: p.log_objective,
        second_order: p.second_order,
        shrinking_period: p.shrinking_period,
        shrinking_threshold: p.shrinking_threshold.to_bits(),
        time_limit: p.time_limit.to_bits(),
    }
}

/// Relies on rusvm::newton::Params::new for the default Newton parameters.
#[verifier::external_body]
fn default_newton_params() -> (r: NewtonParams)
    ensures
        r == newton_defaults(),
{
    let p = rusvm::newton::Params::new();
    NewtonParams {
        tol: p.tol.to_bits(),
        max_steps: p.max_steps,
        verbose: p.verbose,
        time_limit: p.time_limit.to_bits(),
        sigma: p.sigma.to_bits(),
        eta: p.eta.to_bits(),
        max_back_steps: p.max_back_steps,
    }
}

/// Relies on rusvm::problem::Params::new for the default problem parameters.
#[verifier::external_body]
fn default_problem_params() -> (r: ProblemParams)
    ensures
        r == problem_defaults(),
{
    let p = rusvm::problem::Params::new();
    ProblemParams {
        lambda: p.lambda.to_bits(),
        smoothing: p.smoothing.to_bits(),
        max_asum: p.max_asum.to_bits(),
        regularization: p.regularization.to_bits(),
    }
}

/// The SMO parameters that `bag` selects: each field is read from its key,
/// with the library default where the key is missing or invalid.
pub open spec fn smo_params_of(bag: ConfigBag) -> SmoParams {
    let d = smo_defaults();
    SmoParams {
        tol: number_or(lookup(bag, "tol"@), d.tol),
        max_steps: count_or(lookup(bag, "max_steps"@), d.max_steps),
        verbose: count_or(lookup(bag, "verbose"@), d.verbose),
        log_objective: flag_or(lookup(bag, "log_objective"@), d.log_objective),
        second_order: flag_or(lookup(bag, "second_order"@), d.second_order),
        shrinking_period: count_or(lookup(bag, "shrinking_period"@), d.shrinking_period),
        shrinking_threshold: number_or(lookup(bag, "shrinking_threshold"@), d.shrinking_threshold),
        time_limit: number_or(lookup(bag, "time_limit"@), d.time_limit),
    }
}

/// The Newton parameters that `bag` selects.
pub open spec fn newton_params_of(bag: ConfigBag) -> NewtonParams {
    let d = newton_defaults();
    NewtonParams {
        tol: number_or(lookup(bag, "tol"@), d.tol),
        max_steps: count_or(lookup(bag, "max_steps"@), d.max_steps),
        verbose: count_or(lookup(bag, "verbose"@), d.verbose),
        time_limit: number_or(lookup(bag, "time_limit"@), d.time_limit),
        sigma: number_or(lookup(bag, "sigma"@), d.sigma),
        eta: number_or(lookup(bag, "eta"@), d.eta),
        max_back_steps: count_or(lookup(bag, "max_back_steps"@), d.max_back_steps),
    }
}

/// The problem parameters that `bag` selects.
pub open spec fn problem_params_of(bag: ConfigBag) -> ProblemParams {
    let d = problem_defaults();
    ProblemParams {
        lambda: number_or(lookup(bag, "lmbda"@), d.lambda),
        smoothing: number_or(lookup(bag, "smoothing"@), d.smoothing),
        max_asum: number_or(lookup(bag, "max_asum"@), d.max_asum),
        regularization: number_or(lookup(bag, "regularization"@), d.regularization),
    }
}

/// The kernel cache capacity that a solver bag selects (0: no cache).
pub open spec fn cache_size_of(bag: ConfigBag) -> usize {
    count_or(lookup(bag, "cache_size"@), 0)
}

/// Builds the SMO parameters and the kernel cache capacity from `params`.
pub fn extract_params_smo(params: &ConfigBag) -> (r: (SmoParams, usize))
    ensures
        r.0 == smo_params_of(*params),
        r.1 == cache_size_of(*params),
{
    let mut p = default_smo_params();
    let cache_size: usize = if params.is_object {
        p.tol = get_nonan(params, "tol", p.tol);
        p.max_steps = get_usize(params, "max_steps", p.max_steps);
        p.verbose = get_usize(params, "verbose", p.verbose);
        p.log_objective = get_bool(params, "log_objective", p.log_objective);
        p.second_order = get_bool(params, "second_order", p.second_order);
        p.shrinking_period = get_usize(params, "shrinking_period", p.shrinking_period);
        p.shrinking_threshold = get_nonan(params, "shrinking_threshold", p.shrinking_threshold);
        p.time_limit = get_nonan(params, "time_limit", p.time_limit);
        get_usize(params, "cache_size", 0)
    } else {
        0
    };
    (p, cache_size)
}

/// Builds the Newton parameters and the kernel cache capacity from `params`.
pub fn extract_params_newton(params: &ConfigBag) -> (r: (NewtonParams, usize))
    ensures
        r.0 == newton_params_of(*params),
        r.1 == cache_size_of(*params),
{
    let mut p = default_newton_params();
    let cache_size: usize = if params.is_object {
        p.tol = get_nonan(params, "tol", p.tol);
        p.max_steps = get_usize(params, "max_steps", p.max_steps);
        p.verbose = get_usize(params, "verbose", p.verbose);
        p.time_limit = get_nonan(params, "time_limit", p.time_limit);
        p.sigma = get_nonan(params, "sigma", p.sigma);
        p.eta = get_nonan(params, "eta", p.eta);
        p.max_back_steps = get_usize(params, "max_back_steps", p.max_back_steps);
        get_usize(params, "cache_size", 0)
    } else {
        0
    };
    (p, cache_size)
}

/// Builds the shared problem parameters from `params`.
pub fn extract_params_problem(params: &ConfigBag) -> (r: ProblemParams)
    ensures
        r == problem_params_of(*params),
{
    let mut p = default_problem_params();
    if params.is_object {
        p.lambda = get_nonan(params, "lmbda", p.lambda);
        p.smoothing = get_nonan(params, "smoothing", p.smoothing);
        p.max_asum = get_nonan(params, "max_asum", p.max_asum);
        p.regularization = get_nonan(params, "regularization", p.regularization);
    }
    p
}

/// Whether `v` is a stored number other than NaN.
pub open spec fn valid_number(v: Option<HostValue>) -> bool {
    v is Some && !is_nan(v->0.number)
}

/// Whether `v` is a stored boolean.
pub open spec fn valid_flag(v: Option<HostValue>) -> bool {
    v is Some && v->0.boolean is Some
}

/// A numeric field: the stored number where the key holds a valid one, the
/// default otherwise.
pub open spec fn overlaid_number(bag: ConfigBag, key: Seq<char>, field: u64, default: u64) -> bool {
    field == if valid_number(lookup(bag, key)) {
        lookup(bag, key)->0.number
    } else {
        default
    }
}

/// An integer field: the stored number truncated where the key holds a valid
/// one, the default otherwise.
pub open spec fn overlaid_count(bag: ConfigBag, key: Seq<char>, field: usize, default: usize) -> bool {
    field == if valid_number(lookup(bag, key)) {
        saturating_usize(lookup(bag, key)->0.number) as usize
    } else {
        default
    }
}

/// A boolean field: the stored boolean where the key holds one, the default
/// otherwise.
pub open spec fn overlaid_flag(bag: ConfigBag, key: Seq<char>, field: bool, default: bool) -> bool {
    field == if valid_flag(lookup(bag, key)) {
        lookup(bag, key)->0.boolean->0
    } else {
        default
    }
}

/// Every parameter record is the library defaults overlaid exactly at the
/// keys the bag holds with a value of the right type; a bag that is not an
/// object gives the defaults and no cache.
pub proof fn lemma_params_overlay_defaults(bag: ConfigBag)
    ensures
        !bag.is_object ==> smo_params_of(bag) == smo_defaults() && newton_params_of(bag)
            == newton_defaults() && problem_params_of(bag) == problem_defaults()
            && cache_size_of(bag) == 0,
        ({
            let p = smo_params_of(bag);
            let d = smo_defaults();
            &&& overlaid_number(bag, "tol"@, p.tol, d.tol)
            &&& overlaid_count(bag, "max_steps"@, p.max_steps, d.max_steps)
            &&& overlaid_count(bag, "verbose"@, p.verbose, d.verbose)
            &&& overlaid_flag(bag, "log_objective"@, p.log_objective, d.log_objective)
            &&& overlaid_flag(bag, "second_order"@, p.second_order, d.second_order)
            &&& overlaid_count(bag, "shrinking_period"@, p.shrinking_period, d.shrinking_period)
            &&& overlaid_number(bag, "shrinking_threshold"@, p.shrinking_threshold, d.shrinking_threshold)
            &&& overlaid_number(bag, "time_limit"@, p.time_limit, d.time_limit)
        }),
        ({
            let p = newton_params_of(bag);
            let d = newton_defaults();
            &&& overlaid_number(bag, "tol"@, p.tol, d.tol)
            &&& overlaid_count(bag, "max_steps"@, p.max_steps, d.max_steps)
            &&& overlaid_count(bag, "verbose"@, p.verbose, d.verbose)
            &&& overlaid_number(bag, "time_limit"@, p.time_limit, d.time_limit)
            &&& overlaid_number(bag, "sigma"@, p.sigma, d.sigma)
            &&& overlaid_number(bag, "eta"@, p.eta, d.eta)
            &&& overlaid_count(bag, "max_back_steps"@, p.max_back_steps, d.max_back_steps)
        }),
        ({
            let p = problem_params_of(bag);
            let d = problem_defaults();
            &&& overlaid_number(bag, "lmbda"@, p.lambda, d.lambda)
            &&& overlaid_number(bag, "smoothing"@, p.smoothing, d.smoothing)
            &&& overlaid_number(bag, "max_asum"@, p.max_asum, d.max_asum)
            &&& overlaid_number(bag, "regularization"@, p.regularization, d.regularization)
        }),
        overlaid_count(bag, "cache_size"@, cache_size_of(bag), 0),
{
}

} // verus!
