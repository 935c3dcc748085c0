use runcirrus::request::Args;
use runcirrus::version::{get_program_name, program_name_for, version_path, InstallationInfo};

fn base_args() -> Args {
    Args {
        input: "case.in".to_string(),
        cirrus_version: "latest".to_string(),
        queue: "local".to_string(),
        num_tasks: 0,
        num_nodes: 0,
        num_tasks_per_node: 0,
        output_directory: None,
        cirrus_args: None,
        mpi_args: None,
        bsub_args: None,
        qsub_args: None,
        cirrus_help: false,
        print_job_script: false,
        telemetry: None,
        cirrus_versions_path: "/prog/pflotran/versions".to_string(),
    }
}

#[test]
fn legacy_versions_select_the_legacy_program() {
    assert_eq!(get_program_name("/prog/versions/1.8.3"), "pflotran");
    assert_eq!(get_program_name("/prog/versions/1.0.0"), "pflotran");
}

#[test]
fn newer_versions_select_the_current_program() {
    assert_eq!(get_program_name("/prog/versions/1.9.0"), "cirrus");
    assert_eq!(get_program_name("/prog/versions/2.0.0"), "cirrus");
}

#[test]
fn non_semver_names_select_the_current_program() {
    assert_eq!(get_program_name("/prog/versions/latest"), "cirrus");
    assert_eq!(get_program_name("/prog/versions/1.8"), "cirrus");
}

#[test]
fn program_name_for_parsed_versions() {
    assert_eq!(program_name_for(Some((1, 8))), "pflotran");
    assert_eq!(program_name_for(Some((1, 9))), "cirrus");
    assert_eq!(program_name_for(Some((2, 0))), "cirrus");
    assert_eq!(program_name_for(None), "cirrus");
}

#[test]
fn version_path_joins_root_and_identifier() {
    let mut a = base_args();
    a.cirrus_version = "1.8.3".to_string();
    assert_eq!(version_path(&a), "/prog/pflotran/versions/1.8.3");
}

#[test]
fn resolve_derives_the_program_name_from_the_root() {
    let info = InstallationInfo::resolve("/prog/versions/1.8.3".to_string());
    assert_eq!(info.root_dir, "/prog/versions/1.8.3");
    assert_eq!(info.program_name, "pflotran");
    assert_eq!(info.program_path(), "/prog/versions/1.8.3/bin/pflotran");
}
