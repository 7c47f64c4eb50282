//! Choice of the training problem from the `kind` key of a problem bag.
use crate::config::{get_nonan, get_text, lookup, number_or, text_or, ConfigBag};
use crate::params::{extract_params_problem, problem_params_of, ProblemParams};
use vstd::prelude::*;

verus! {

/// Bits of `1.0`, the default shift of a classification problem.
pub const DEFAULT_SHIFT: u64 = 0x3ff0_0000_0000_0000;

/// Bits of `1e-6`, the default epsilon of a regression problem.
pub const DEFAULT_EPSILON: u64 = 0x3eb0_c6f7_a0b5_ed8d;

/// A training problem, with the parameters of its kind.
#[derive(Clone, Copy, Debug, PartialEq, Eq, Structural)]
pub enum ProblemKind {
    Classification { params: ProblemParams, shift: u64 },
    Regression { params: ProblemParams, epsilon: u64 },
    LeastSquares { params: ProblemParams },
    Poisson { params: ProblemParams },
}

/// A training problem over a vector of labels (IEEE-754 bits).
pub struct Problem {
    pub labels: Vec<u64>,
    pub kind: ProblemKind,
}

/// Why no problem could be built.
#[derive(Debug, PartialEq, Eq)]
pub enum ProblemError {
    /// The `kind` key names none of the four problem kinds.
    UnknownKind(String),
}

/// The problem kind that `bag` names; `"classification"` when it names none.
pub open spec fn kind_of(bag: ConfigBag) -> Seq<char> {
    text_or(lookup(bag, "kind"@), "classification"@)
}

/// The problem that `bag` selects, or `None` for an unknown kind.
pub open spec fn problem_kind_of(bag: ConfigBag) -> Option<ProblemKind> {
    let p = problem_params_of(bag);
    let k = kind_of(bag);
    if k == "classification"@ {
        Some(
            ProblemKind::Classification {
                params: p,
                shift: number_or(lookup(bag, "shift"@), DEFAULT_SHIFT),
            },
        )
    } else if k == "regression"@ {
        Some(
            ProblemKind::Regression {
                params: p,
                epsilon: number_or(lookup(bag, "epsilon"@), DEFAULT_EPSILON),
            },
        )
    } else if k == "lssvm"@ {
        Some(ProblemKind::LeastSquares { params: p })
    } else if k == "poisson"@ {
        Some(ProblemKind::Poisson { params: p })
    } else {
        None
    }
}

/// Relies on rusvm::problem::Classification::new for the default shift.
#[verifier::external_body]
fn default_shift() -> (r: u64)
    ensures
        r == DEFAULT_SHIFT,
{
    rusvm::problem::Classification::new(&[], rusvm::problem::Params::new()).shift.to_bits()
}

/// Relies on rusvm::problem::Regression::new for the default epsilon.
#[verifier::external_body]
fn default_epsilon() -> (r: u64)
    ensures
        r == DEFAULT_EPSILON,
{
    rusvm::problem::Regression::new(&[], rusvm::problem::Params::new()).epsilon.to_bits()
}

/// Whether `s` holds exactly `name`.
fn names(s: &String, name: &str) -> (r: bool)
    ensures
        r == (s@ == name@),
{
    let n: String = name.to_owned();
    *s == n
}

/// Builds the problem that `params` names over the labels `y`.
pub fn prepare_problem(y: &Vec<u64>, params: &ConfigBag) -> (r: Result<Problem, ProblemError>)
    ensures
        match r {
            Ok(p) => problem_kind_of(*params) == Some(p.kind) && p.labels@ == y@,
            Err(ProblemError::UnknownKind(k)) => problem_kind_of(*params) is None && k@ == kind_of(
                *params,
            ),
        },
{
    let kind = get_text(params, "kind", "classification");
    proof {
        reveal_strlit("classification");
        reveal_strlit("regression");
        reveal_strlit("lssvm");
        reveal_strlit("poisson");
    }
    let labels = y.clone();
    if names(&kind, "classification") {
        let shift = get_nonan(params, "shift", default_shift());
        Ok(Problem {
            labels,
            kind: ProblemKind::Classification { params: extract_params_problem(params), shift },
        })
    } else if names(&kind, "regression") {
        let epsilon = get_nonan(params, "epsilon", default_epsilon());
        Ok(Problem {
            labels,
            kind: ProblemKind::Regression { params: extract_params_problem(params), epsilon },
        })
    } else if names(&kind, "lssvm") {
        Ok(Problem { labels, kind: ProblemKind::LeastSquares { params: extract_params_problem(params) } })
    } else if names(&kind, "poisson") {
        Ok(Problem { labels, kind: ProblemKind::Poisson { params: extract_params_problem(params) } })
    } else {
        Err(ProblemError::UnknownKind(kind))
    }
}

/// The shared parameters of the problem that a bag selects.
pub open spec fn params_of_kind(k: ProblemKind) -> ProblemParams {
    match k {
        ProblemKind::Classification { params, .. } => params,
        ProblemKind::Regression { params, .. } => params,
        ProblemKind::LeastSquares { params } => params,
        ProblemKind::Poisson { params } => params,
    }
}

/// Whatever the kind, a problem carries the shared parameters read from the
/// bag; a kind that none of the four names gives no problem.
pub proof fn lemma_every_kind_reads_shared_params(bag: ConfigBag)
    ensures
        problem_kind_of(bag) matches Some(k) ==> params_of_kind(k) == problem_params_of(bag),
        problem_kind_of(bag) is None <==> (kind_of(bag) != "classification"@ && kind_of(bag)
            != "regression"@ && kind_of(bag) != "lssvm"@ && kind_of(bag) != "poisson"@),
{
}

} // verus!
