use runcirrus::dispatch::{
    build_bsub_command, child_exit_code, choose_dispatch, immediate_exit_code, plan_run,
    resource_string, Dispatch,
};
use runcirrus::request::Args;
use runcirrus::version::InstallationInfo;

fn base_args() -> Args {
    Args {
        input: "/work/case.in".to_string(),
        cirrus_version: "latest".to_string(),
        queue: "local".to_string(),
        num_tasks: 0,
        num_nodes: 0,
        num_tasks_per_node: 0,
        output_directory: None,
        cirrus_args: None,
        mpi_args: None,
        bsub_args: None,
        qsub_args: None,
        cirrus_help: false,
        print_job_script: false,
        telemetry: None,
        cirrus_versions_path: "/prog/pflotran/versions".to_string(),
    }
}

fn info() -> InstallationInfo {
    InstallationInfo::resolve("/prog/versions/2.0.0".to_string())
}

#[test]
fn resource_string_without_tile_is_the_baseline() {
    assert_eq!(resource_string(0), "select[rhel >= 8] same[type:model]");
}

#[test]
fn resource_string_with_tile_appends_the_span() {
    assert_eq!(
        resource_string(8),
        "select[rhel >= 8] same[type:model] span[ptile=8]"
    );
    assert_eq!(
        resource_string(128),
        "select[rhel >= 8] same[type:model] span[ptile=128]"
    );
}

#[test]
fn help_flag_wins_over_everything() {
    let mut a = base_args();
    a.cirrus_help = true;
    a.print_job_script = true;
    match choose_dispatch(&a, &info(), "script".to_string(), true) {
        Dispatch::HelpOnly { program } => {
            assert_eq!(program, "/prog/versions/2.0.0/bin/cirrus");
        }
        other => panic!("expected HelpOnly, got {:?}", other),
    }
}

#[test]
fn print_only_yields_the_script() {
    let mut a = base_args();
    a.print_job_script = true;
    match choose_dispatch(&a, &info(), "the script".to_string(), true) {
        Dispatch::PrintOnly { script } => assert_eq!(script, "the script"),
        other => panic!("expected PrintOnly, got {:?}", other),
    }
}

#[test]
fn local_queue_runs_locally_even_with_a_scheduler() {
    let a = base_args();
    match choose_dispatch(&a, &info(), "the script".to_string(), true) {
        Dispatch::Local { script } => assert_eq!(script, "the script"),
        other => panic!("expected Local, got {:?}", other),
    }
}

#[test]
fn non_local_queue_without_scheduler_is_unsupported() {
    let mut a = base_args();
    a.queue = "long".to_string();
    match choose_dispatch(&a, &info(), "the script".to_string(), false) {
        Dispatch::Unsupported => {}
        other => panic!("expected Unsupported, got {:?}", other),
    }
}

#[test]
fn batch_submission_carries_the_request() {
    let mut a = base_args();
    a.queue = "long".to_string();
    a.num_nodes = 2;
    a.num_tasks_per_node = 8;
    match choose_dispatch(&a, &info(), "the script".to_string(), true) {
        Dispatch::Batch { cmd } => {
            assert_eq!(cmd.queue, "long");
            assert_eq!(cmd.total_tasks, 16);
            assert_eq!(cmd.log_path, "/work/case.bsub.LOG");
            assert_eq!(cmd.job_name, "Cirrus_case.in");
            assert_eq!(
                cmd.resources,
                "select[rhel >= 8] same[type:model] span[ptile=8]"
            );
            assert_eq!(cmd.script_path, "/work/case.run");
            assert_eq!(cmd.script, "the script");
        }
        other => panic!("expected Batch, got {:?}", other),
    }
}

#[test]
fn batch_resources_without_tile_stay_baseline() {
    let mut a = base_args();
    a.queue = "long".to_string();
    a.num_tasks = 16;
    let cmd = build_bsub_command(&a, "s".to_string());
    assert_eq!(cmd.resources, "select[rhel >= 8] same[type:model]");
}

#[test]
fn bsub_argv_is_exact() {
    let mut a = base_args();
    a.queue = "long".to_string();
    a.num_tasks = 16;
    let cmd = build_bsub_command(&a, "s".to_string());
    assert_eq!(
        cmd.argv(),
        vec![
            "-q",
            "long",
            "-n",
            "16",
            "-o",
            "/work/case.bsub.LOG",
            "-J",
            "Cirrus_case.in",
            "-R",
            "select[rhel >= 8] same[type:model]",
            "--",
            "/usr/bin/bash",
            "/work/case.run",
        ]
    );
}

#[test]
fn plan_run_is_deterministic_for_the_local_queue() {
    let a = base_args();
    match plan_run(&a, &info(), "the script".to_string()) {
        Dispatch::Local { script } => assert_eq!(script, "the script"),
        other => panic!("expected Local, got {:?}", other),
    }
}

#[test]
fn print_only_exits_with_one() {
    let d = Dispatch::PrintOnly {
        script: "s".to_string(),
    };
    assert_eq!(immediate_exit_code(&d), Some(1));
}

#[test]
fn unsupported_exits_with_one() {
    assert_eq!(immediate_exit_code(&Dispatch::Unsupported), Some(1));
}

#[test]
fn child_states_have_no_immediate_exit() {
    let d = Dispatch::Local {
        script: "s".to_string(),
    };
    assert_eq!(immediate_exit_code(&d), None);
}

#[test]
fn local_run_with_four_tasks_end_to_end() {
    let mut a = base_args();
    a.num_tasks = 4;
    let a = runcirrus::request::validate_args(a, false).unwrap();
    let workdir = runcirrus::script::workdir_base(&a, "/work/case.in");
    let script = runcirrus::script::render_script(&a, &info(), "/work/case.in", &workdir);
    assert!(script.contains("-np 4"));
    match choose_dispatch(&a, &info(), script.clone(), false) {
        Dispatch::Local { script: s } => assert_eq!(s, script),
        other => panic!("expected Local, got {:?}", other),
    }
    // The launcher's own exit status mirrors the child shell's.
    assert_eq!(child_exit_code(Some(3)), 3);
}

#[test]
fn child_exit_code_propagates_or_falls_back() {
    assert_eq!(child_exit_code(Some(0)), 0);
    assert_eq!(child_exit_code(Some(7)), 7);
    assert_eq!(child_exit_code(None), 1);
}
