use genesis_kit::jobs::{
    builds_arguments, configuration_arguments, download_arguments, latest_build_arguments,
    log_arguments, scratch_file, trigger_arguments, upload_arguments,
};

fn strings(items: &[&str]) -> Vec<String> {
    items.iter().map(|i| i.to_string()).collect()
}

#[test]
fn arguments_to_list_builds() {
    assert_eq!(builds_arguments("shield/test-kit"), strings(&["builds", "-j", "shield/test-kit"]));
}

#[test]
fn arguments_to_print_the_configuration() {
    assert_eq!(
        configuration_arguments("vault-v2"),
        strings(&["configure", "-t", "genesis-kits", "-j", "vault-v2", "--json"])
    );
}

#[test]
fn arguments_to_print_the_latest_build() {
    assert_eq!(
        latest_build_arguments("vault-v2/test-kit"),
        strings(&["builds", "-t", "genesis-kits", "-j", "vault-v2/test-kit", "--count=1", "--json"])
    );
}

#[test]
fn arguments_to_print_a_log() {
    assert_eq!(
        log_arguments("vault-v2/test-kit", "17"),
        strings(&["watch", "-t", "genesis-kits", "-j", "vault-v2/test-kit", "-b", "17"])
    );
}

#[test]
fn arguments_to_trigger_a_job() {
    assert_eq!(
        trigger_arguments("bosh-v2/test-kit"),
        strings(&["trigger-job", "-t", "genesis-kits", "-j", "bosh-v2/test-kit", "--watch"])
    );
}

#[test]
fn arguments_to_download_and_upload_a_pipeline() {
    assert_eq!(
        download_arguments("bosh-v2"),
        strings(&["get-pipeline", "-t", "genesis-kits", "-p", "bosh-v2"])
    );
    assert_eq!(
        upload_arguments("bosh-v2", "/tmp/bosh-v2-pipeline.yml"),
        strings(&[
            "set-pipeline",
            "-t",
            "genesis-kits",
            "-p",
            "bosh-v2",
            "-c",
            "/tmp/bosh-v2-pipeline.yml",
            "--non-interactive",
        ])
    );
}

#[test]
fn scratch_file_is_named_after_the_kit() {
    assert_eq!(scratch_file("bosh-v2"), "/tmp/bosh-v2-pipeline.yml");
}
