//! The run request: the validated, normalized form of the user's command
//! line, and the argument preprocessing that precedes structured parsing.

use vstd::prelude::*;
use vstd::string::*;

use crate::paths::{spec_with_extension, with_extension};

verus! {

/// A user's run request, immutable once validated.
///
/// Counts are non-negative; `queue == "local"` means no batch scheduler.
/// The pass-through strings are forwarded verbatim to the program, the MPI
/// launcher and the batch submitter.
#[derive(Debug)]
pub struct Args {
    pub input: String,
    pub cirrus_version: String,
    pub queue: String,
    pub num_tasks: u32,
    pub num_nodes: u32,
    pub num_tasks_per_node: u32,
    pub output_directory: Option<String>,
    pub cirrus_args: Option<String>,
    pub mpi_args: Option<String>,
    pub bsub_args: Option<String>,
    pub qsub_args: Option<String>,
    pub cirrus_help: bool,
    pub print_job_script: bool,
    pub telemetry: Option<String>,
    pub cirrus_versions_path: String,
}

/// Why a request was rejected.
#[derive(Clone, Copy, Debug, PartialEq, Eq, Structural)]
pub enum ValidationError {
    /// A node count was given without a per-node task count.
    MissingTasksPerNode,
    /// A per-node task count was given without a node count.
    MissingNodeCount,
    /// Both a task count and a node count were given.
    ConflictingTaskCounts,
}

impl ValidationError {
    /// The diagnostic line for this rejection.
    pub fn message(&self) -> (r: String)
        ensures
            *self is MissingTasksPerNode ==> r@ == (
            "When specifying -N/--num-nodes, you must also specify -M/--num-tasks-per-node")@,
            *self is MissingNodeCount ==> r@ == (
            "When specifying -M/--num-tasks-per-node, you must also specify -N/--num-nodes")@,
            *self is ConflictingTaskCounts ==> r@ == (
            "Specify exactly one of -n/--num-tasks or -N/--num-nodes")@,
    {
        match self {
            ValidationError::MissingTasksPerNode => (
            "When specifying -N/--num-nodes, you must also specify -M/--num-tasks-per-node").to_owned(),
            ValidationError::MissingNodeCount => (
            "When specifying -M/--num-tasks-per-node, you must also specify -N/--num-nodes").to_owned(),
            ValidationError::ConflictingTaskCounts => (
            "Specify exactly one of -n/--num-tasks or -N/--num-nodes").to_owned(),
        }
    }
}

/// The total task count the request determines: the explicit task count if
/// positive, else the node count times the per-node task count, else 0,
/// 0 meaning "let the launcher decide".
pub open spec fn spec_total_tasks(a: Args) -> int {
    if a.num_tasks > 0 {
        a.num_tasks as int
    } else if a.num_nodes > 0 {
        a.num_nodes * a.num_tasks_per_node
    } else {
        0
    }
}

/// The path that names generated artifacts: the output directory override
/// when present, else the input path.
pub open spec fn spec_output_base(a: Args) -> Seq<char> {
    match a.output_directory {
        Some(d) => d@,
        None => a.input@,
    }
}

/// The count fields are consistent: a node count comes with a per-node task
/// count and vice versa, and not together with an explicit task count.
pub open spec fn spec_counts_valid(a: Args) -> bool {
    &&& !(a.num_nodes > 0 && a.num_tasks_per_node == 0)
    &&& !(a.num_tasks_per_node > 0 && a.num_nodes == 0)
    &&& !(a.num_nodes > 0 && a.num_tasks > 0)
}

impl Args {
    /// Computes `spec_total_tasks`.
    pub fn num_total_tasks(&self) -> (r: u64)
        ensures
            r as int == spec_total_tasks(*self),
    {
        if self.num_tasks > 0 {
            self.num_tasks as u64
        } else if self.num_nodes > 0 {
            let n = self.num_nodes as u64;
            let m = self.num_tasks_per_node as u64;
            assert(n * m <= 0xFFFF_FFFFu64 * 0xFFFF_FFFFu64) by (nonlinear_arith)
                requires
                    n <= 0xFFFF_FFFFu64,
                    m <= 0xFFFF_FFFFu64,
            ;
            n * m
        } else {
            0
        }
    }

    /// The output base path with its extension replaced by `extension`.
    pub fn output_with_ext(&self, extension: &str) -> (r: String)
        ensures
            r@ == spec_with_extension(spec_output_base(*self), extension@),
    {
        match &self.output_directory {
            Some(d) => with_extension(d.as_str(), extension),
            None => with_extension(self.input.as_str(), extension),
        }
    }
}

/// Exactly one active way of giving a task count determines the total; with
/// neither way active the total is 0.
pub proof fn lemma_total_tasks_cases(a: Args)
    ensures
        a.num_tasks > 0 && !(a.num_nodes > 0 && a.num_tasks_per_node > 0) ==> spec_total_tasks(a)
            == a.num_tasks as int,
        !(a.num_tasks > 0) && a.num_nodes > 0 && a.num_tasks_per_node > 0 ==> spec_total_tasks(a)
            == a.num_nodes * a.num_tasks_per_node,
        !(a.num_tasks > 0) && !(a.num_nodes > 0 && a.num_tasks_per_node > 0) ==> spec_total_tasks(
            a,
        ) == 0,
{
    if !(a.num_tasks > 0) && !(a.num_nodes > 0 && a.num_tasks_per_node > 0) && a.num_nodes > 0 {
        assert(a.num_tasks_per_node == 0);
        assert(a.num_nodes * a.num_tasks_per_node == 0) by (nonlinear_arith)
            requires
                a.num_tasks_per_node == 0,
        ;
    }
}

/// Validates and normalizes a request. The checks are applied in order and
/// the first failure wins; `scheduler_env` says whether an active batch
/// allocation was detected in the environment, in which case the request is
/// forced to run locally with at least one task.
pub fn validate_args(a: Args, scheduler_env: bool) -> (r: Result<Args, ValidationError>)
    ensures
        a.num_nodes > 0 && a.num_tasks_per_node == 0 ==> r == Err::<Args, ValidationError>(
            ValidationError::MissingTasksPerNode,
        ),
        !(a.num_nodes > 0 && a.num_tasks_per_node == 0) && a.num_tasks_per_node > 0 && a.num_nodes
            == 0 ==> r == Err::<Args, ValidationError>(ValidationError::MissingNodeCount),
        a.num_nodes > 0 && a.num_tasks_per_node > 0 && a.num_tasks > 0 ==> r == Err::<
            Args,
            ValidationError,
        >(ValidationError::ConflictingTaskCounts),
        spec_counts_valid(a) && !scheduler_env ==> r == Ok::<Args, ValidationError>(a),
        spec_counts_valid(a) && scheduler_env ==> (r matches Ok(b) && b == (Args {
            queue: b.queue,
            num_tasks: b.num_tasks,
            ..a
        }) && b.queue@ == "local"@ && b.num_tasks == (if a.num_tasks == 0 {
            1u32
        } else {
            a.num_tasks
        })),
        spec_counts_valid(a) <==> r is Ok,
        a.num_nodes > 0 && a.num_tasks > 0 ==> r is Err,
        scheduler_env && r is Ok ==> (r matches Ok(b) && b.queue@ == "local"@ && b.num_tasks >= 1),
{
    if a.num_nodes > 0 && a.num_tasks_per_node == 0 {
        Err(ValidationError::MissingTasksPerNode)
    } else if a.num_tasks_per_node > 0 && a.num_nodes == 0 {
        Err(ValidationError::MissingNodeCount)
    } else if a.num_nodes > 0 && a.num_tasks > 0 {
        Err(ValidationError::ConflictingTaskCounts)
    } else if scheduler_env {
        let num_tasks = if a.num_tasks == 0 {
            1
        } else {
            a.num_tasks
        };
        Ok(Args { queue: "local".to_owned(), num_tasks, ..a })
    } else {
        Ok(a)
    }
}

/// How one raw argument is rewritten before structured parsing: the two
/// deprecated short flags become their modern spellings, and the help flag
/// gains a placeholder input argument.
pub open spec fn spec_rewrite_arg(a: Seq<char>) -> Seq<Seq<char>> {
    if a == "-nn"@ {
        seq!["-N"@]
    } else if a == "-nm"@ {
        seq!["-M"@]
    } else if a == "--cirrus-help"@ {
        seq![a, "dev/null"@]
    } else {
        seq![a]
    }
}

/// The rewritten argument list.
pub open spec fn spec_preparse(s: Seq<Seq<char>>) -> Seq<Seq<char>>
    decreases s.len(),
{
    if s.len() == 0 {
        Seq::<Seq<char>>::empty()
    } else {
        spec_rewrite_arg(s.first()) + spec_preparse(s.drop_first())
    }
}

/// The deprecation warning one raw argument provokes, if any.
pub open spec fn spec_warn_arg(a: Seq<char>) -> Seq<Seq<char>> {
    if a == "-nn"@ {
        seq![("Warning: '-nn' argument has been deprecated in favour of '-N'")@]
    } else if a == "-nm"@ {
        seq![("Warning: '-nm' argument has been deprecated in favour of '-M'")@]
    } else {
        Seq::<Seq<char>>::empty()
    }
}

/// The deprecation warnings an argument list provokes, in order.
pub open spec fn spec_warnings(s: Seq<Seq<char>>) -> Seq<Seq<char>>
    decreases s.len(),
{
    if s.len() == 0 {
        Seq::<Seq<char>>::empty()
    } else {
        spec_warn_arg(s.first()) + spec_warnings(s.drop_first())
    }
}

proof fn lemma_preparse_snoc(s: Seq<Seq<char>>, x: Seq<char>)
    ensures
        spec_preparse(s.push(x)) == spec_preparse(s) + spec_rewrite_arg(x),
    decreases s.len(),
{
    if s.len() == 0 {
        reveal_with_fuel(spec_preparse, 2);
        assert(s.push(x).first() == x);
        assert(s.push(x).drop_first() =~= Seq::<Seq<char>>::empty());
        assert(spec_preparse(Seq::<Seq<char>>::empty()) == Seq::<Seq<char>>::empty());
        assert(spec_preparse(s.push(x)) =~= spec_preparse(s) + spec_rewrite_arg(x));
    } else {
        lemma_preparse_snoc(s.drop_first(), x);
        assert(s.push(x).drop_first() =~= s.drop_first().push(x));
        assert(s.push(x).first() == s.first());
        assert(spec_preparse(s.push(x)) == spec_rewrite_arg(s.first()) + (spec_preparse(
            s.drop_first(),
        ) + spec_rewrite_arg(x)));
        assert(spec_rewrite_arg(s.first()) + (spec_preparse(s.drop_first()) + spec_rewrite_arg(x))
            =~= (spec_rewrite_arg(s.first()) + spec_preparse(s.drop_first())) + spec_rewrite_arg(
            x,
        ));
    }
}

proof fn lemma_warnings_snoc(s: Seq<Seq<char>>, x: Seq<char>)
    ensures
        spec_warnings(s.push(x)) == spec_warnings(s) + spec_warn_arg(x),
    decreases s.len(),
{
    if s.len() == 0 {
        reveal_with_fuel(spec_warnings, 2);
        assert(s.push(x).first() == x);
        assert(s.push(x).drop_first() =~= Seq::<Seq<char>>::empty());
        assert(spec_warnings(Seq::<Seq<char>>::empty()) == Seq::<Seq<char>>::empty());
        assert(spec_warnings(s.push(x)) =~= spec_warnings(s) + spec_warn_arg(x));
    } else {
        lemma_warnings_snoc(s.drop_first(), x);
        assert(s.push(x).drop_first() =~= s.drop_first().push(x));
        assert(s.push(x).first() == s.first());
        assert(spec_warnings(s.push(x)) == spec_warn_arg(s.first()) + (spec_warnings(
            s.drop_first(),
        ) + spec_warn_arg(x)));
        assert(spec_warn_arg(s.first()) + (spec_warnings(s.drop_first()) + spec_warn_arg(x)) =~= (
        spec_warn_arg(s.first()) + spec_warnings(s.drop_first())) + spec_warn_arg(x));
    }
}

/// Rewrites the raw argument list before structured parsing and collects
/// the deprecation warnings to print, in order.
pub fn preparse_args(raw: &Vec<String>) -> (r: (Vec<String>, Vec<String>))
    ensures
        r.0.deep_view() == spec_preparse(raw.deep_view()),
        r.1.deep_view() == spec_warnings(raw.deep_view()),
{
    let nn: String = "-nn".to_owned();
    let nm: String = "-nm".to_owned();
    let help_flag: String = "--cirrus-help".to_owned();
    let mut out: Vec<String> = Vec::new();
    let mut warnings: Vec<String> = Vec::new();
    let ghost dv = raw.deep_view();
    proof {
        assert(dv.take(0) =~= Seq::<Seq<char>>::empty());
        assert(out.deep_view() =~= Seq::<Seq<char>>::empty());
        assert(warnings.deep_view() =~= Seq::<Seq<char>>::empty());
    }
    let mut i: usize = 0;
    while i < raw.len()
        invariant
            i <= raw.len(),
            dv == raw.deep_view(),
            dv.len() == raw@.len(),
            nn@ == "-nn"@,
            nm@ == "-nm"@,
            help_flag@ == "--cirrus-help"@,
            out.deep_view() == spec_preparse(dv.take(i as int)),
            warnings.deep_view() == spec_warnings(dv.take(i as int)),
        decreases raw.len() - i,
    {
        let arg = &raw[i];
        proof {
            assert(arg@ == dv[i as int]);
            assert(dv.take(i + 1) =~= dv.take(i as int).push(dv[i as int]));
            lemma_preparse_snoc(dv.take(i as int), dv[i as int]);
            lemma_warnings_snoc(dv.take(i as int), dv[i as int]);
        }
        let ghost out_before = out.deep_view();
        let ghost warn_before = warnings.deep_view();
        if arg.eq(&nn) {
            warnings.push(("Warning: '-nn' argument has been deprecated in favour of '-N'").to_owned());
            out.push("-N".to_owned());
        } else if arg.eq(&nm) {
            warnings.push(("Warning: '-nm' argument has been deprecated in favour of '-M'").to_owned());
            out.push("-M".to_owned());
        } else if arg.eq(&help_flag) {
            out.push(arg.clone());
            out.push("dev/null".to_owned());
        } else {
            out.push(arg.clone());
        }
        proof {
            assert(out.deep_view() =~= out_before + spec_rewrite_arg(dv[i as int]));
            assert(warnings.deep_view() =~= warn_before + spec_warn_arg(dv[i as int]));
        }
        i = i + 1;
    }
    proof {
        assert(dv.take(raw@.len() as int) =~= dv);
    }
    (out, warnings)
}

} // verus!
