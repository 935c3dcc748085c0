//! Rendering of the job script: a fixed template filled in from the
//! request and the resolved installation, trusting the pass-through
//! strings verbatim (the caller is responsible for their content).

use vstd::prelude::*;
use vstd::string::*;

use crate::paths::{file_stem, parent, spec_file_stem, spec_parent};
use crate::request::{spec_total_tasks, Args};
use crate::version::InstallationInfo;
use crate::{spec_u64_string, u64_to_string};

verus! {

/// The text of an optional pass-through string: empty when absent.
pub open spec fn spec_opt_text(o: Option<String>) -> Seq<char> {
    match o {
        Some(s) => s@,
        None => Seq::<char>::empty(),
    }
}

/// The task-count flag fragment handed to the MPI launcher: `-np ` and the
/// total task count when one is determined, empty otherwise.
pub open spec fn spec_tasks_fragment(a: Args) -> Seq<char> {
    if spec_total_tasks(a) > 0 {
        "-np "@ + spec_u64_string(spec_total_tasks(a) as nat)
    } else {
        Seq::<char>::empty()
    }
}

/// The case label: the input file's stem, or a default label when the stem
/// is empty.
pub open spec fn spec_case_name(input: Seq<char>) -> Seq<char> {
    if spec_file_stem(input).len() == 0 {
        "cirrus"@
    } else {
        spec_file_stem(input)
    }
}

/// The working directory the script runs in, before the caller makes it
/// absolute: the output directory override, else the input file's parent.
pub open spec fn spec_workdir_base(a: Args, input: Seq<char>) -> Seq<char> {
    match a.output_directory {
        Some(d) => d@,
        None => spec_parent(input),
    }
}

/// The full job-script text: a fixed template around the installation
/// root, working directory, input path, case label, program name, the MPI
/// and program pass-through strings, the task-count fragment and the
/// telemetry argument.
pub open spec fn spec_render_script(
    a: Args,
    info: InstallationInfo,
    input: Seq<char>,
    workdir: Seq<char>,
) -> Seq<char> {
    "#!/usr/bin/bash\n"@ + "set -eu\n"@ + "cd "@ + workdir + "\n"@ + spec_opt_text(a.telemetry)
        + "\n"@ + "mpirun "@ + spec_tasks_fragment(a) + " "@ + spec_opt_text(a.mpi_args) + " "@
        + info.root_dir@ + "/bin/"@ + info.program_name@ + " "@ + input + " "@ + spec_opt_text(
        a.cirrus_args,
    ) + " > "@ + spec_case_name(input) + ".stdout\n"@
}

/// The case label of an input path.
pub fn case_name(input: &str) -> (r: String)
    ensures
        r@ == spec_case_name(input@),
{
    let stem = file_stem(input);
    if stem.as_str().unicode_len() == 0 {
        "cirrus".to_owned()
    } else {
        stem
    }
}

/// The working directory for the run, as `spec_workdir_base` describes.
pub fn workdir_base(a: &Args, input: &str) -> (r: String)
    ensures
        r@ == spec_workdir_base(*a, input@),
{
    match &a.output_directory {
        Some(d) => d.clone(),
        None => parent(input),
    }
}

/// Renders the job script; the text is exactly `spec_render_script` of the
/// arguments.
pub fn render_script(a: &Args, info: &InstallationInfo, input: &str, workdir: &str) -> (s: String)
    ensures
        s@ == spec_render_script(*a, *info, input@, workdir@),
{
    let total = a.num_total_tasks();
    let mut s = String::new();
    s.append("#!/usr/bin/bash\n");
    s.append("set -eu\n");
    s.append("cd ");
    s.append(workdir);
    s.append("\n");
    match &a.telemetry {
        Some(t) => s.append(t.as_str()),
        None => (),
    }
    s.append("\n");
    s.append("mpirun ");
    if total > 0 {
        s.append("-np ");
        let n = u64_to_string(total);
        s.append(n.as_str());
    }
    s.append(" ");
    match &a.mpi_args {
        Some(t) => s.append(t.as_str()),
        None => (),
    }
    s.append(" ");
    s.append(info.root_dir.as_str());
    s.append("/bin/");
    s.append(info.program_name.as_str());
    s.append(" ");
    s.append(input);
    s.append(" ");
    match &a.cirrus_args {
        Some(t) => s.append(t.as_str()),
        None => (),
    }
    s.append(" > ");
    let case = case_name(input);
    s.append(case.as_str());
    s.append(".stdout\n");
    proof {
        assert(s@ =~= spec_render_script(*a, *info, input@, workdir@));
    }
    s
}

/// Rendering is deterministic: two requests and installations that agree
/// on everything the template reads produce byte-identical script text.
pub proof fn lemma_render_deterministic(
    a1: Args,
    info1: InstallationInfo,
    input1: Seq<char>,
    workdir1: Seq<char>,
    a2: Args,
    info2: InstallationInfo,
    input2: Seq<char>,
    workdir2: Seq<char>,
)
    requires
        a1.num_tasks == a2.num_tasks,
        a1.num_nodes == a2.num_nodes,
        a1.num_tasks_per_node == a2.num_tasks_per_node,
        spec_opt_text(a1.mpi_args) == spec_opt_text(a2.mpi_args),
        spec_opt_text(a1.cirrus_args) == spec_opt_text(a2.cirrus_args),
        spec_opt_text(a1.telemetry) == spec_opt_text(a2.telemetry),
        info1.root_dir@ == info2.root_dir@,
        info1.program_name@ == info2.program_name@,
        input1 == input2,
        workdir1 == workdir2,
    ensures
        spec_render_script(a1, info1, input1, workdir1) == spec_render_script(
            a2,
            info2,
            input2,
            workdir2,
        ),
{
    assert(spec_total_tasks(a1) == spec_total_tasks(a2));
    assert(spec_tasks_fragment(a1) == spec_tasks_fragment(a2));
    assert(spec_render_script(a1, info1, input1, workdir1) =~= spec_render_script(
        a2,
        info2,
        input2,
        workdir2,
    ));
}

} // verus!
