use bex_auth::release::{bex_release, checkout, command, python, BundleEnvs};
use gh_workflow::{
    Concurrency, Env, Event, Expression, Job, Level, Permissions, Push, Run, Step, StepValue, Use,
    Workflow, WorkflowDispatch,
};

const TARGETS: [(&str, &str, &str); 6] = [
    ("macos", "aarch64", "macos-15"),
    ("macos", "x86_64", "macos-15-intel"),
    ("linux", "aarch64", "ubuntu-22.04-arm"),
    ("linux", "x86_64", "ubuntu-22.04"),
    ("windows", "aarch64", "windows-2022"),
    ("windows", "x86_64", "windows-2022"),
];

fn envs() -> BundleEnvs {
    BundleEnvs {
        windows: Env::default().add("CARGO_HOME", "c:").add("JOBS", 4),
        linux: Env::default().add("CC", "clang"),
        mac: Env::default()
            .add("MACOS_SIGNING_IDENTITY", "someone else")
            .add("APPLE_KEY", "${{ secrets.APPLE_KEY }}"),
    }
}

fn built() -> Workflow {
    bex_release(&envs())
}

fn job(workflow: &Workflow, id: &str) -> Job {
    workflow.jobs.as_ref().unwrap().get(id).unwrap().clone()
}

fn entries(env: &Env) -> Vec<(String, String)> {
    env.0.iter().map(|(key, value)| (key.clone(), value.to_string())).collect()
}

fn bash(name: &str, script: &str) -> Step<Run> {
    Step::new(name).run(script).shell("bash")
}

fn action(repository: &str, version: &str) -> Step<Use> {
    Step::new("Action").uses("actions", repository, version)
}

fn expected_checkout() -> Step<Use> {
    action("checkout", "v4")
        .add_with(("fetch-depth", 0))
        .add_with(("persist-credentials", false))
}

fn expected_python() -> Step<Use> {
    action("setup-python", "v5").add_with(("python-version", "3.12"))
}

fn expected_build(os: &str, arch: &str, runner: &str) -> Job {
    let bundle = match os {
        "windows" => envs().windows,
        "linux" => envs().linux,
        _ => envs().mac,
    };
    let job = Job::new(format!("build_{os}_{arch}"))
        .runs_on(runner)
        .add_needs("validate")
        .timeout_minutes(180u32)
        .env(
            bundle
                .add("WINDOWS_SIGNING_PUBLISHER", "${{ vars.WINDOWS_SIGNING_PUBLISHER }}")
                .add("MACOS_SIGNING_IDENTITY", "${{ vars.MACOS_SIGNING_IDENTITY }}"),
        )
        .add_step(expected_checkout())
        .add_step(expected_python())
        .add_step(bash("Prepare stable build", "python script/bex-release.py prepare"))
        .add_step(action("setup-node", "v4").add_with(("node-version", "22")));
    let job = match os {
        "linux" => job
            .add_step(bash("Install Linux dependencies", "sudo apt-get update\nscript/linux"))
            .add_step(bash("Bundle Linux", "script/bundle-linux")),
        "macos" => job.add_step(bash(
            "Bundle and notarize macOS",
            &format!("script/bundle-mac {arch}-apple-darwin"),
        )),
        _ => job.add_step(
            Step::new("Install signing tools and bundle Windows")
                .run(format!(
                    r#"$ErrorActionPreference = 'Stop'
$PSNativeCommandUseErrorActionPreference = $true
Install-Module -Name TrustedSigning -RequiredVersion 0.5.8 -Scope CurrentUser -Force -Repository PSGallery
Import-Module TrustedSigning
./script/bundle-windows.ps1 -Architecture {arch}
$signature = Get-AuthenticodeSignature "target/Zed-{arch}.exe"
if ($signature.Status -ne 'Valid') {{ throw 'Installer signature validation failed' }}"#
                ))
                .shell("pwsh"),
        ),
    };
    job.add_step(bash(
        "Collect release artifacts",
        &format!("python script/bex-release.py collect {os} {arch}"),
    ))
    .add_step(
        action("upload-artifact", "v4")
            .add_with(("name", format!("bex-{os}-{arch}")))
            .add_with(("path", "release-artifacts/*"))
            .add_with(("if-no-files-found", "error"))
            .add_with(("compression-level", 0)),
    )
}

fn expected_signing_env() -> Env {
    envs()
        .mac
        .add("MACOS_SIGNING_IDENTITY", "${{ vars.MACOS_SIGNING_IDENTITY }}")
        .add("AZURE_TENANT_ID", "${{ secrets.AZURE_SIGNING_TENANT_ID }}")
        .add("AZURE_CLIENT_ID", "${{ secrets.AZURE_SIGNING_CLIENT_ID }}")
        .add("AZURE_CLIENT_SECRET", "${{ secrets.AZURE_SIGNING_CLIENT_SECRET }}")
        .add("ACCOUNT_NAME", "${{ vars.AZURE_SIGNING_ACCOUNT_NAME }}")
        .add("CERT_PROFILE_NAME", "${{ vars.AZURE_SIGNING_CERT_PROFILE_NAME }}")
        .add("ENDPOINT", "${{ vars.AZURE_SIGNING_ENDPOINT }}")
        .add("WINDOWS_SIGNING_PUBLISHER", "${{ vars.WINDOWS_SIGNING_PUBLISHER }}")
}

#[test]
fn shared_steps_are_what_they_say() {
    assert_eq!(checkout(), expected_checkout());
    assert_eq!(python(), expected_python());
    let step = command("Say \"hi\"", "echo 'a'\necho b");
    assert_eq!(step, bash("Say \"hi\"", "echo 'a'\necho b"));
    assert_eq!(step.value.name.as_deref(), Some("Say \"hi\""));
    assert_eq!(step.value.run.as_deref(), Some("echo 'a'\necho b"));
    assert_eq!(step.value.shell.as_deref(), Some("bash"));
    assert_eq!(checkout().value.uses.as_deref(), Some("actions/checkout@v4"));
}

#[test]
fn release_is_started_by_tags_automation_changes_or_hand() {
    let workflow = built();
    let expected = Event::default()
        .push(
            Push::default()
                .add_tag("v*")
                .add_branch("main")
                .add_path("script/bex-release.py")
                .add_path("script/test_bex_release.py")
                .add_path("tooling/xtask/src/tasks/workflows/bex_release.rs")
                .add_path(".github/workflows/bex_release.yml"),
        )
        .workflow_dispatch(WorkflowDispatch::default());
    assert_eq!(workflow.on, Some(expected));
    assert_eq!(workflow.name.as_deref(), Some("bex_release"));
}

#[test]
fn release_runs_exclude_each_other_and_read_only() {
    let workflow = built();
    assert_eq!(workflow.permissions, Some(Permissions::default().contents(Level::Read)));
    assert_eq!(
        workflow.concurrency,
        Some(Concurrency::new(Expression::new("bex-stable-release")).cancel_in_progress(false))
    );
    assert_eq!(
        entries(workflow.env.as_ref().unwrap()),
        [
            ("CARGO_INCREMENTAL".to_string(), "\"0\"".to_string()),
            ("BEX_RELEASE_TAG".to_string(), "\"${{ github.ref_name }}\"".to_string()),
        ]
    );
    assert_eq!(workflow.timeout_minutes, None);
    assert!(workflow.defaults.is_none());
    assert_eq!(workflow.run_name, None);
}

#[test]
fn checks_test_the_release_automation() {
    let expected = Job::new("Test release automation")
        .runs_on("ubuntu-24.04")
        .timeout_minutes(20u32)
        .add_step(expected_checkout())
        .add_step(expected_python())
        .add_step(bash(
            "Test publication guards",
            "python -m unittest discover -s script -p test_bex_release.py",
        ))
        .add_step(bash(
            "Verify generated workflows",
            "cargo xtask workflows\ngit diff --exit-code -- .github/workflows extensions/workflows\ncargo xtask check-workflows",
        ));
    assert_eq!(job(&built(), "checks"), expected);
}

#[test]
fn validation_knows_the_token_and_the_signing_secrets() {
    let expected = Job::new("Validate release and signing configuration")
        .add_needs("checks")
        .runs_on("ubuntu-24.04")
        .cond(Expression::new(
            "github.repository == 'bex-co/bex-desktop' && startsWith(github.ref, 'refs/tags/v')",
        ))
        .timeout_minutes(10u32)
        .add_step(expected_checkout())
        .add_step(expected_python())
        .add_step(
            bash("Validate tag and version", "python script/bex-release.py validate")
                .add_env(("GH_TOKEN", "${{ github.token }}")),
        )
        .add_step(
            bash("Check signing credentials", "python script/bex-release.py check-signing")
                .env(expected_signing_env()),
        );
    assert_eq!(job(&built(), "validate"), expected);
}

#[test]
fn every_target_is_built() {
    let workflow = built();
    for (os, arch, runner) in TARGETS {
        let id = format!("build_{os}_{arch}");
        assert_eq!(job(&workflow, &id), expected_build(os, arch, runner), "{id}");
    }
}

#[test]
fn publishing_waits_for_every_build_and_writes() {
    let needs: Vec<String> =
        TARGETS.iter().map(|(os, arch, _)| format!("build_{os}_{arch}")).collect();
    let expected = Job::new("Publish complete stable release")
        .runs_on("ubuntu-24.04")
        .needs(needs)
        .permissions(Permissions::default().contents(Level::Write))
        .timeout_minutes(15u32)
        .add_step(expected_checkout())
        .add_step(expected_python())
        .add_step(
            action("download-artifact", "v4")
                .add_with(("pattern", "bex-*"))
                .add_with(("merge-multiple", true))
                .add_with(("path", "release-artifacts")),
        )
        .add_step(
            bash("Verify artifacts and publish", "python script/bex-release.py publish")
                .add_env(("GH_TOKEN", "${{ github.token }}")),
        );
    assert_eq!(job(&built(), "publish"), expected);
}

#[test]
fn jobs_stand_in_the_order_of_their_needs() {
    let yaml = built().to_string().unwrap();
    let order = [
        "checks",
        "validate",
        "build_macos_aarch64",
        "build_macos_x86_64",
        "build_linux_aarch64",
        "build_linux_x86_64",
        "build_windows_aarch64",
        "build_windows_x86_64",
        "publish",
    ];
    let jobs = yaml.find("\njobs:\n").unwrap();
    let places: Vec<usize> =
        order.iter().map(|id| yaml[jobs..].find(&format!("\n  {id}:\n")).unwrap()).collect();
    assert!(places.windows(2).all(|pair| pair[0] < pair[1]), "{places:?}");
    let ids = yaml[jobs..]
        .lines()
        .filter(|line| line.starts_with("  ") && !line.starts_with("   ") && line.ends_with(':'));
    assert_eq!(ids.count(), order.len());
}

#[test]
fn only_publishing_may_write() {
    let workflow = built();
    for (os, arch, _) in TARGETS {
        assert_eq!(job(&workflow, &format!("build_{os}_{arch}")).permissions, None);
    }
    assert_eq!(job(&workflow, "checks").permissions, None);
    assert_eq!(job(&workflow, "validate").permissions, None);
    assert_eq!(
        job(&workflow, "publish").permissions,
        Some(Permissions::default().contents(Level::Write))
    );
}

#[test]
fn signers_override_the_environment_in_place() {
    let env = job(&built(), "build_macos_x86_64").env.unwrap();
    assert_eq!(
        entries(&env),
        [
            (
                "MACOS_SIGNING_IDENTITY".to_string(),
                "\"${{ vars.MACOS_SIGNING_IDENTITY }}\"".to_string()
            ),
            ("APPLE_KEY".to_string(), "\"${{ secrets.APPLE_KEY }}\"".to_string()),
            (
                "WINDOWS_SIGNING_PUBLISHER".to_string(),
                "\"${{ vars.WINDOWS_SIGNING_PUBLISHER }}\"".to_string()
            ),
        ]
    );
    let env = job(&built(), "build_windows_x86_64").env.unwrap();
    assert_eq!(entries(&env)[1], ("JOBS".to_string(), "4".to_string()));
}

#[test]
fn artifacts_have_names_that_publishing_gathers() {
    let workflow = built();
    let mut names = Vec::new();
    for (os, arch, _) in TARGETS {
        let steps: Vec<StepValue> =
            job(&workflow, &format!("build_{os}_{arch}")).steps.unwrap();
        let inputs = steps.last().unwrap().with.clone().unwrap();
        let name = inputs.0.get("name").unwrap().as_str().unwrap().to_string();
        assert!(name.starts_with("bex-"));
        assert!(!names.contains(&name));
        names.push(name);
    }
    assert_eq!(names.len(), 6);
}
