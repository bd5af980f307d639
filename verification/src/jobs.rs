//! What is asked of the orchestrator about the kits' test jobs.

use vstd::prelude::*;

verus! {

/// The orchestrator target under which the kits' pipelines live.
pub open spec fn kits_target() -> Seq<char> {
    "genesis-kits"@
}

/// The arguments to list the builds of a job.
pub open spec fn builds_of(job: Seq<char>) -> Seq<Seq<char>> {
    seq!["builds"@, "-j"@, job]
}

/// The arguments to print a kit's pipeline configuration as JSON.
pub open spec fn configuration_of(kit: Seq<char>) -> Seq<Seq<char>> {
    seq!["configure"@, "-t"@, kits_target(), "-j"@, kit, "--json"@]
}

/// The arguments to print the latest build of a job as JSON.
pub open spec fn latest_build_of(job: Seq<char>) -> Seq<Seq<char>> {
    seq!["builds"@, "-t"@, kits_target(), "-j"@, job, "--count=1"@, "--json"@]
}

/// The arguments to print the log of a build of a job.
pub open spec fn log_of(job: Seq<char>, build: Seq<char>) -> Seq<Seq<char>> {
    seq!["watch"@, "-t"@, kits_target(), "-j"@, job, "-b"@, build]
}

/// The arguments to start a job and follow it.
pub open spec fn trigger_of(job: Seq<char>) -> Seq<Seq<char>> {
    seq!["trigger-job"@, "-t"@, kits_target(), "-j"@, job, "--watch"@]
}

/// The arguments to print a kit's pipeline.
pub open spec fn download_of(kit: Seq<char>) -> Seq<Seq<char>> {
    seq!["get-pipeline"@, "-t"@, kits_target(), "-p"@, kit]
}

/// The arguments to set a kit's pipeline from a file, without asking.
pub open spec fn upload_of(kit: Seq<char>, file: Seq<char>) -> Seq<Seq<char>> {
    seq!["set-pipeline"@, "-t"@, kits_target(), "-p"@, kit, "-c"@, file, "--non-interactive"@]
}

/// The file in which a kit's pipeline is kept between download and upload.
pub open spec fn scratch_file_of(kit: Seq<char>) -> Seq<char> {
    "/tmp/"@ + kit + "-pipeline.yml"@
}

/// The arguments to list the builds of a job.
pub fn builds_arguments(job: &str) -> (r: Vec<String>)
    ensures
        r.deep_view() == builds_of(job@),
{
    let mut out: Vec<String> = Vec::new();
    out.push("builds".to_owned());
    out.push("-j".to_owned());
    out.push(job.to_owned());
    assert(out.deep_view() =~= builds_of(job@));
    out
}

/// The arguments to print a kit's pipeline configuration as JSON.
pub fn configuration_arguments(kit: &str) -> (r: Vec<String>)
    ensures
        r.deep_view() == configuration_of(kit@),
{
    let mut out: Vec<String> = Vec::new();
    out.push("configure".to_owned());
    out.push("-t".to_owned());
    out.push("genesis-kits".to_owned());
    out.push("-j".to_owned());
    out.push(kit.to_owned());
    out.push("--json".to_owned());
    assert(out.deep_view() =~= configuration_of(kit@));
    out
}

/// The arguments to print the latest build of a job as JSON.
pub fn latest_build_arguments(job: &str) -> (r: Vec<String>)
    ensures
        r.deep_view() == latest_build_of(job@),
{
    let mut out: Vec<String> = Vec::new();
    out.push("builds".to_owned());
    out.push("-t".to_owned());
    out.push("genesis-kits".to_owned());
    out.push("-j".to_owned());
    out.push(job.to_owned());
    out.push("--count=1".to_owned());
    out.push("--json".to_owned());
    assert(out.deep_view() =~= latest_build_of(job@));
    out
}

/// The arguments to print the log of a build of a job.
pub fn log_arguments(job: &str, build: &str) -> (r: Vec<String>)
    ensures
        r.deep_view() == log_of(job@, build@),
{
    let mut out: Vec<String> = Vec::new();
    out.push("watch".to_owned());
    out.push("-t".to_owned());
    out.push("genesis-kits".to_owned());
    out.push("-j".to_owned());
    out.push(job.to_owned());
    out.push("-b".to_owned());
    out.push(build.to_owned());
    assert(out.deep_view() =~= log_of(job@, build@));
    out
}

/// The arguments to start a job and follow it.
pub fn trigger_arguments(job: &str) -> (r: Vec<String>)
    ensures
        r.deep_view() == trigger_of(job@),
{
    let mut out: Vec<String> = Vec::new();
    out.push("trigger-job".to_owned());
    out.push("-t".to_owned());
    out.push("genesis-kits".to_owned());
    out.push("-j".to_owned());
    out.push(job.to_owned());
    out.push("--watch".to_owned());
    assert(out.deep_view() =~= trigger_of(job@));
    out
}

/// The arguments to print a kit's pipeline.
pub fn download_arguments(kit: &str) -> (r: Vec<String>)
    ensures
        r.deep_view() == download_of(kit@),
{
    let mut out: Vec<String> = Vec::new();
    out.push("get-pipeline".to_owned());
    out.push("-t".to_owned());
    out.push("genesis-kits".to_owned());
    out.push("-p".to_owned());
    out.push(kit.to_owned());
    assert(out.deep_view() =~= download_of(kit@));
    out
}

/// The arguments to set a kit's pipeline from a file, without asking.
pub fn upload_arguments(kit: &str, file: &str) -> (r: Vec<String>)
    ensures
        r.deep_view() == upload_of(kit@, file@),
{
    let mut out: Vec<String> = Vec::new();
    out.push("set-pipeline".to_owned());
    out.push("-t".to_owned());
    out.push("genesis-kits".to_owned());
    out.push("-p".to_owned());
    out.push(kit.to_owned());
    out.push("-c".to_owned());
    out.push(file.to_owned());
    out.push("--non-interactive".to_owned());
    assert(out.deep_view() =~= upload_of(kit@, file@));
    out
}

/// The file in which a kit's pipeline is kept between download and upload.
pub fn scratch_file(kit: &str) -> (r: String)
    ensures
        r@ == scratch_file_of(kit@),
{
    let mut out = "/tmp/".to_owned();
    out.append(kit);
    out.append("-pipeline.yml");
    out
}

} // verus!
