//! Everything a training call decides before the solver runs: the solver
//! parameters, the problem, the checked training matrix, the kernel width
//! and the kernel cache capacity.
use crate::config::{get_nonan, lookup, number_or, ConfigBag};
use crate::data::{extract_data, is_rectangular, ShapeError};
use crate::params::{
    cache_size_of, extract_params_newton, extract_params_smo, newton_params_of, smo_params_of,
    NewtonParams, SmoParams, ONE,
};
use crate::problem::{kind_of, prepare_problem, problem_kind_of, Problem, ProblemError};
use vstd::prelude::*;

verus! {

/// Why a training call stops before the solver runs.
#[derive(Debug, PartialEq, Eq)]
pub enum SetupError {
    /// The problem bag names no known problem kind.
    UnknownKind(String),
    /// The training rows do not all have one length.
    Shape(ShapeError),
}

/// The Gaussian kernel over the training rows and its cache.
#[derive(Clone, Copy, Debug, PartialEq, Eq, Structural)]
pub struct KernelSpec {
    /// Kernel width (IEEE-754 bits).
    pub gamma: u64,
    /// Cache capacity in rows; 0 for no cache.
    pub cache_size: usize,
}

/// A training call ready for the solver.
pub struct Training<P> {
    pub params: P,
    pub problem: Problem,
    pub data: Vec<Vec<u64>>,
    pub kernel: KernelSpec,
}

/// The kernel width that a problem bag selects (default `1.0`).
pub open spec fn gamma_of(bag: ConfigBag) -> u64 {
    number_or(lookup(bag, "gamma"@), ONE)
}

/// Reads the kernel width from a problem bag.
pub fn kernel_gamma(params_problem: &ConfigBag) -> (r: u64)
    ensures
        r == gamma_of(*params_problem),
{
    get_nonan(params_problem, "gamma", ONE)
}

/// The common contract of the two preparations: which error comes, if any,
/// and what a prepared call holds.
pub open spec fn prepared<P>(
    r: Result<Training<P>, SetupError>,
    x: Seq<Vec<u64>>,
    y: Seq<u64>,
    params_problem: ConfigBag,
    params: P,
    cache_size: usize,
) -> bool {
    match r {
        Ok(t) => {
            &&& problem_kind_of(params_problem) == Some(t.problem.kind)
            &&& t.problem.labels@ == y
            &&& is_rectangular(x)
            &&& t.data@ == x
            &&& t.params == params
            &&& t.kernel == KernelSpec { gamma: gamma_of(params_problem), cache_size }
        },
        Err(SetupError::UnknownKind(k)) => problem_kind_of(params_problem) is None && k@ == kind_of(
            params_problem,
        ),
        Err(SetupError::Shape(e)) => {
            &&& problem_kind_of(params_problem) is Some
            &&& !is_rectangular(x)
            &&& e.row < x.len()
            &&& e.found == x[e.row as int]@.len()
            &&& e.expected == x[0]@.len()
        },
    }
}

/// Assembles a training call from its parts.
fn assemble<P>(
    params: P,
    cache_size: usize,
    x: Vec<Vec<u64>>,
    y: &Vec<u64>,
    params_problem: &ConfigBag,
) -> (r: Result<Training<P>, SetupError>)
    ensures
        prepared(r, x@, y@, *params_problem, params, cache_size),
{
    let problem = match prepare_problem(y, params_problem) {
        Ok(p) => p,
        Err(ProblemError::UnknownKind(k)) => {
            return Err(SetupError::UnknownKind(k));
        },
    };
    let data = match extract_data(x) {
        Ok(d) => d,
        Err(e) => {
            return Err(SetupError::Shape(e));
        },
    };
    let gamma = kernel_gamma(params_problem);
    Ok(Training { params, problem, data, kernel: KernelSpec { gamma, cache_size } })
}

/// Prepares a training call of the SMO solver: the problem is chosen first,
/// then the training rows are checked.
pub fn prepare_smo(
    x: Vec<Vec<u64>>,
    y: &Vec<u64>,
    params_problem: &ConfigBag,
    params_smo: &ConfigBag,
) -> (r: Result<Training<SmoParams>, SetupError>)
    ensures
        prepared(r, x@, y@, *params_problem, smo_params_of(*params_smo), cache_size_of(*params_smo)),
{
    let (params, cache_size) = extract_params_smo(params_smo);
    assemble(params, cache_size, x, y, params_problem)
}

/// Prepares a training call of the Newton solver.
pub fn prepare_newton(
    x: Vec<Vec<u64>>,
    y: &Vec<u64>,
    params_problem: &ConfigBag,
    params_newton: &ConfigBag,
) -> (r: Result<Training<NewtonParams>, SetupError>)
    ensures
        prepared(
            r,
            x@,
            y@,
            *params_problem,
            newton_params_of(*params_newton),
            cache_size_of(*params_newton),
        ),
{
    let (params, cache_size) = extract_params_newton(params_newton);
    assemble(params, cache_size, x, y, params_problem)
}

} // verus!
