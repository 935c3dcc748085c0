//! Dispatch: which of the terminal actions a validated request leads to,
//! and the exact shape of the batch submission when one is made.

use vstd::prelude::*;
use vstd::string::*;

use crate::paths::{file_name, spec_file_name, spec_join, spec_with_extension};
use crate::request::{spec_output_base, spec_total_tasks, Args};
use crate::version::InstallationInfo;
use crate::{spec_u64_string, u64_to_string};

verus! {

/// Relies on which::which_global: whether a batch-submission binary is on
/// the executable search path. The answer depends on the machine, so
/// nothing is promised of it.
#[verifier::external_body]
fn has_bsub() -> bool {
    which::which_global("bsub").is_ok()
}

/// A batch submission, fully determined before anything runs: the
/// submission arguments and the script text to put on disk first.
#[derive(Debug)]
pub struct BsubCommand {
    pub queue: String,
    pub total_tasks: u64,
    pub log_path: String,
    pub job_name: String,
    pub resources: String,
    pub script_path: String,
    pub script: String,
}

/// The terminal action a request leads to. Each ends the invocation: a
/// help query, printing the script, running it locally, submitting it to
/// the batch scheduler, or failing for want of either.
#[derive(Debug)]
pub enum Dispatch {
    HelpOnly { program: String },
    PrintOnly { script: String },
    Local { script: String },
    Batch { cmd: BsubCommand },
    Unsupported,
}

/// The baseline scheduler resource constraints every submission carries.
pub open spec fn spec_base_resources() -> Seq<char> {
    "select[rhel >= 8] same[type:model]"@
}

/// The resource string: the baseline constraints, and a per-node tile
/// specification exactly when a per-node task count is set.
pub open spec fn spec_resources(tpn: u32) -> Seq<char> {
    if tpn > 0 {
        spec_base_resources() + " span[ptile="@ + spec_u64_string(tpn as nat) + "]"@
    } else {
        spec_base_resources()
    }
}

/// Builds the resource string, as `spec_resources` describes.
pub fn resource_string(tpn: u32) -> (r: String)
    ensures
        r@ == spec_resources(tpn),
{
    let mut r = ("select[rhel >= 8] same[type:model]").to_owned();
    if tpn > 0 {
        r.append(" span[ptile=");
        let n = u64_to_string(tpn as u64);
        r.append(n.as_str());
        r.append("]");
        proof {
            assert(r@ =~= spec_resources(tpn));
        }
    }
    r
}

/// A well-formed batch submission for request `a` and script text
/// `script`: queue and total task count from the request, log path and
/// script path derived from the output base, the job name from the input
/// file's name, and the resource string from the per-node task count.
pub open spec fn spec_bsub_ok(a: Args, script: Seq<char>, c: BsubCommand) -> bool {
    &&& c.queue@ == a.queue@
    &&& c.total_tasks as int == spec_total_tasks(a)
    &&& c.log_path@ == spec_with_extension(spec_output_base(a), "bsub.LOG"@)
    &&& c.job_name@ == "Cirrus_"@ + spec_file_name(a.input@)
    &&& c.resources@ == spec_resources(a.num_tasks_per_node)
    &&& c.script_path@ == spec_with_extension(spec_output_base(a), "run"@)
    &&& c.script@ == script
}

/// Builds the batch submission for a request and its rendered script.
pub fn build_bsub_command(a: &Args, script: String) -> (c: BsubCommand)
    ensures
        spec_bsub_ok(*a, script@, c),
{
    let mut job_name = ("Cirrus_").to_owned();
    let input_name = file_name(a.input.as_str());
    job_name.append(input_name.as_str());
    BsubCommand {
        queue: a.queue.clone(),
        total_tasks: a.num_total_tasks(),
        log_path: a.output_with_ext("bsub.LOG"),
        job_name,
        resources: resource_string(a.num_tasks_per_node),
        script_path: a.output_with_ext("run"),
        script,
    }
}

impl BsubCommand {
    /// The argument vector of the submission command, in order; the
    /// submission binary itself is not part of it.
    pub fn argv(&self) -> (r: Vec<String>)
        ensures
            r.deep_view() == seq![
                "-q"@,
                self.queue@,
                "-n"@,
                spec_u64_string(self.total_tasks as nat),
                "-o"@,
                self.log_path@,
                "-J"@,
                self.job_name@,
                "-R"@,
                self.resources@,
                "--"@,
                "/usr/bin/bash"@,
                self.script_path@,
            ],
    {
        let mut r: Vec<String> = Vec::new();
        r.push("-q".to_owned());
        r.push(self.queue.clone());
        r.push("-n".to_owned());
        r.push(u64_to_string(self.total_tasks));
        r.push("-o".to_owned());
        r.push(self.log_path.clone());
        r.push("-J".to_owned());
        r.push(self.job_name.clone());
        r.push("-R".to_owned());
        r.push(self.resources.clone());
        r.push("--".to_owned());
        r.push("/usr/bin/bash".to_owned());
        r.push(self.script_path.clone());
        proof {
            assert(r.deep_view() =~= seq![
                "-q"@,
                self.queue@,
                "-n"@,
                spec_u64_string(self.total_tasks as nat),
                "-o"@,
                self.log_path@,
                "-J"@,
                self.job_name@,
                "-R"@,
                self.resources@,
                "--"@,
                "/usr/bin/bash"@,
                self.script_path@,
            ]);
        }
        r
    }
}

/// The dispatch decision for a request, resolved installation, rendered
/// script and batch availability: the states are tried in priority order
/// and the first that applies wins.
pub open spec fn spec_dispatch_ok(
    a: Args,
    info: InstallationInfo,
    script: Seq<char>,
    batch_available: bool,
    d: Dispatch,
) -> bool {
    if a.cirrus_help {
        d matches Dispatch::HelpOnly { program } && program@ == spec_join(
            spec_join(info.root_dir@, "bin"@),
            info.program_name@,
        )
    } else if a.print_job_script {
        d matches Dispatch::PrintOnly { script: s } && s@ == script
    } else if a.queue@ == "local"@ {
        d matches Dispatch::Local { script: s } && s@ == script
    } else if batch_available {
        d matches Dispatch::Batch { cmd } && spec_bsub_ok(a, script, cmd)
    } else {
        d is Unsupported
    }
}

/// Chooses the dispatch state, given whether a batch scheduler was
/// detected on the host.
pub fn choose_dispatch(
    a: &Args,
    info: &InstallationInfo,
    script: String,
    batch_available: bool,
) -> (d: Dispatch)
    ensures
        spec_dispatch_ok(*a, *info, script@, batch_available, d),
{
    if a.cirrus_help {
        Dispatch::HelpOnly { program: info.program_path() }
    } else if a.print_job_script {
        Dispatch::PrintOnly { script }
    } else {
        let local_queue: String = "local".to_owned();
        if a.queue.eq(&local_queue) {
            Dispatch::Local { script }
        } else if batch_available {
            Dispatch::Batch { cmd: build_bsub_command(a, script) }
        } else {
            Dispatch::Unsupported
        }
    }
}

/// Plans the run: probes the host for a batch scheduler and chooses the
/// dispatch state. Whether the probe succeeded is the host's affair; all
/// other branches are pinned down exactly.
pub fn plan_run(a: &Args, info: &InstallationInfo, script: String) -> (d: Dispatch)
    ensures
        a.cirrus_help ==> (d matches Dispatch::HelpOnly { program } && program@ == spec_join(
            spec_join(info.root_dir@, "bin"@),
            info.program_name@,
        )),
        !a.cirrus_help && a.print_job_script ==> (d matches Dispatch::PrintOnly { script: s } && s@
            == script@),
        !a.cirrus_help && !a.print_job_script && a.queue@ == "local"@ ==> (d matches
            Dispatch::Local { script: s } && s@ == script@),
        !a.cirrus_help && !a.print_job_script && a.queue@ != "local"@ ==> ((d matches
            Dispatch::Batch { cmd } && spec_bsub_ok(*a, script@, cmd)) || d is Unsupported),
{
    let batch_available = has_bsub();
    choose_dispatch(a, info, script, batch_available)
}

/// The exit status the launcher decides by itself: printing the script
/// and the unsupported environment both end the invocation with status 1;
/// the other states defer to a child process.
pub fn immediate_exit_code(d: &Dispatch) -> (r: Option<i32>)
    ensures
        *d is PrintOnly ==> r == Some(1i32),
        *d is Unsupported ==> r == Some(1i32),
        *d is HelpOnly || *d is Local || *d is Batch ==> r is None,
{
    match d {
        Dispatch::PrintOnly { .. } => Some(1),
        Dispatch::Unsupported => Some(1),
        _ => None,
    }
}

/// The exit status propagated from a child process: its own code, or 1
/// where it ended without one.
pub fn child_exit_code(code: Option<i32>) -> (r: i32)
    ensures
        r == (match code {
            Some(c) => c,
            None => 1i32,
        }),
{
    match code {
        Some(c) => c,
        None => 1,
    }
}

/// With the local queue selected, dispatch never reaches the batch state,
/// whatever the host offers.
pub proof fn lemma_local_never_batch(
    a: Args,
    info: InstallationInfo,
    script: Seq<char>,
    batch_available: bool,
    d: Dispatch,
)
    requires
        a.queue@ == "local"@,
        spec_dispatch_ok(a, info, script, batch_available, d),
    ensures
        !(d is Batch),
{
}

/// In print-only mode, without the help flag, dispatch yields exactly the
/// rendered script and nothing else.
pub proof fn lemma_print_only_yields_script(
    a: Args,
    info: InstallationInfo,
    script: Seq<char>,
    batch_available: bool,
    d: Dispatch,
)
    requires
        !a.cirrus_help,
        a.print_job_script,
        spec_dispatch_ok(a, info, script, batch_available, d),
    ensures
        d matches Dispatch::PrintOnly { script: s } && s@ == script,
{
}

/// `s` carries the text that opens a per-node tile specification.
pub open spec fn spec_has_tile_marker(s: Seq<char>) -> bool {
    exists|i: int| 0 <= i && i + 11 <= s.len() && #[trigger] s.subrange(i, i + 11)
        == "span[ptile="@
}

/// The resource string carries a tile specification exactly when a
/// per-node task count is set: without one it is the baseline constraints
/// unchanged, with one the tile specification follows the baseline.
pub proof fn lemma_resources_tile(tpn: u32)
    ensures
        spec_resources(tpn) == spec_base_resources() <==> tpn == 0,
        spec_has_tile_marker(spec_resources(tpn)) <==> tpn > 0,
        tpn > 0 ==> spec_resources(tpn).subrange(
            spec_base_resources().len() as int + 1,
            spec_base_resources().len() as int + 12,
        ) == "span[ptile="@,
{
    reveal_strlit("select[rhel >= 8] same[type:model]");
    reveal_strlit(" span[ptile=");
    reveal_strlit("span[ptile=");
    if tpn > 0 {
        let digits = spec_u64_string(tpn as nat);
        assert(digits.len() >= 1);
        assert(spec_resources(tpn).len() > spec_base_resources().len());
        let i0 = spec_base_resources().len() as int + 1;
        assert(spec_resources(tpn).subrange(i0, i0 + 11) =~= "span[ptile="@);
        assert(spec_has_tile_marker(spec_resources(tpn)));
    } else {
        let base = spec_base_resources();
        assert forall|i: int| 0 <= i && i + 11 <= base.len() implies #[trigger] base.subrange(
            i,
            i + 11,
        ) != "span[ptile="@ by {
            let sub = base.subrange(i, i + 11);
            if sub == "span[ptile="@ {
                assert(base[i] == sub[0] && sub[0] == 's');
                assert(base[i + 1] == sub[1] && sub[1] == 'p');
                assert(false);
            }
        }
        assert(!spec_has_tile_marker(spec_resources(tpn)));
    }
}

} // verus!
