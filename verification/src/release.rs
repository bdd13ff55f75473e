//! The workflow that tests, builds, signs and publishes a stable release.

use vstd::prelude::*;
use vstd::string::*;

use crate::actions;
use crate::actions::{Access, PushFilter};
#[allow(unused_imports)]
use crate::actions::{
    ConcurrencyView, EventView, JobView, PushView, SettingView, StepView, WorkflowView,
};
use crate::text;

verus! {

/// An operating system that a bundle is built on.
#[derive(Clone, Copy, Debug, PartialEq, Eq, Structural)]
pub enum Platform {
    Windows,
    Linux,
    Mac,
}

/// The environments that bundling needs, one for each platform.
pub struct BundleEnvs {
    pub windows: gh_workflow::Env,
    pub linux: gh_workflow::Env,
    pub mac: gh_workflow::Env,
}

/// The mathematical view of a [`BundleEnvs`].
pub struct BundleView {
    pub windows: Seq<(Seq<char>, SettingView)>,
    pub linux: Seq<(Seq<char>, SettingView)>,
    pub mac: Seq<(Seq<char>, SettingView)>,
}

impl View for BundleEnvs {
    type V = BundleView;

    open spec fn view(&self) -> BundleView {
        BundleView {
            windows: actions::env_contents(self.windows),
            linux: actions::env_contents(self.linux),
            mac: actions::env_contents(self.mac),
        }
    }
}

/// The environment that bundling for `platform` needs.
pub open spec fn bundle_env(envs: BundleView, platform: Platform) -> Seq<
    (Seq<char>, SettingView),
> {
    match platform {
        Platform::Windows => envs.windows,
        Platform::Linux => envs.linux,
        Platform::Mac => envs.mac,
    }
}

/// A string that a workflow file holds.
pub open spec fn setting(value: Seq<char>) -> SettingView {
    SettingView::Text(value)
}

/// An ordered map after each of `additions` was set in turn.
pub open spec fn put_all(
    entries: Seq<(Seq<char>, SettingView)>,
    additions: Seq<(Seq<char>, Seq<char>)>,
) -> Seq<(Seq<char>, SettingView)>
    decreases additions.len(),
{
    if additions.len() == 0 {
        entries
    } else {
        actions::put(
            put_all(entries, additions.drop_last()),
            additions.last().0,
            setting(additions.last().1),
        )
    }
}

/// The views of a list of pairs.
pub open spec fn pairs(list: Seq<(&str, &str)>) -> Seq<(Seq<char>, Seq<char>)> {
    list.map_values(|pair: (&str, &str)| (pair.0@, pair.1@))
}

/// The step that checks the sources out: the whole history, and no credentials left behind.
pub open spec fn checkout_step() -> StepView {
    StepView {
        uses: Some(actions::action_reference("actions"@, "checkout"@, "v4"@)),
        with: seq![
            ("fetch-depth"@, setting("0"@)),
            ("persist-credentials"@, setting("false"@)),
        ],
        ..actions::named_step("Action"@)
    }
}

/// The step that installs Python.
pub open spec fn python_step() -> StepView {
    StepView {
        uses: Some(actions::action_reference("actions"@, "setup-python"@, "v5"@)),
        with: seq![("python-version"@, setting("3.12"@))],
        ..actions::named_step("Action"@)
    }
}

/// The step that runs `script` in bash.
pub open spec fn command_step(name: Seq<char>, script: Seq<char>) -> StepView {
    StepView { run: Some(script), shell: Some("bash"@), ..actions::named_step(name) }
}

/// The step that installs Node.
pub open spec fn node_step() -> StepView {
    StepView {
        uses: Some(actions::action_reference("actions"@, "setup-node"@, "v4"@)),
        with: seq![("node-version"@, setting("22"@))],
        ..actions::named_step("Action"@)
    }
}

/// `step` with the workflow's token in its environment.
pub open spec fn with_token(step: StepView) -> StepView {
    StepView { env: Some(seq![("GH_TOKEN"@, setting("${{ github.token }}"@))]), ..step }
}

/// The variables that checking the signing credentials needs beside the bundle's.
pub open spec fn signing_variables() -> Seq<(Seq<char>, Seq<char>)> {
    seq![
        ("MACOS_SIGNING_IDENTITY"@, "${{ vars.MACOS_SIGNING_IDENTITY }}"@),
        ("AZURE_TENANT_ID"@, "${{ secrets.AZURE_SIGNING_TENANT_ID }}"@),
        ("AZURE_CLIENT_ID"@, "${{ secrets.AZURE_SIGNING_CLIENT_ID }}"@),
        ("AZURE_CLIENT_SECRET"@, "${{ secrets.AZURE_SIGNING_CLIENT_SECRET }}"@),
        ("ACCOUNT_NAME"@, "${{ vars.AZURE_SIGNING_ACCOUNT_NAME }}"@),
        ("CERT_PROFILE_NAME"@, "${{ vars.AZURE_SIGNING_CERT_PROFILE_NAME }}"@),
        ("ENDPOINT"@, "${{ vars.AZURE_SIGNING_ENDPOINT }}"@),
        ("WINDOWS_SIGNING_PUBLISHER"@, "${{ vars.WINDOWS_SIGNING_PUBLISHER }}"@),
    ]
}

/// The variables that say whose signature a build carries.
pub open spec fn signer_variables() -> Seq<(Seq<char>, Seq<char>)> {
    seq![
        ("WINDOWS_SIGNING_PUBLISHER"@, "${{ vars.WINDOWS_SIGNING_PUBLISHER }}"@),
        ("MACOS_SIGNING_IDENTITY"@, "${{ vars.MACOS_SIGNING_IDENTITY }}"@),
    ]
}

/// What is built: the operating system and the processor of a bundle, the runner that builds it,
/// and the platform whose environment it needs.
pub struct BuildTarget {
    pub os: &'static str,
    pub arch: &'static str,
    pub runner: &'static str,
    pub platform: Platform,
}

/// The mathematical view of a [`BuildTarget`].
pub struct TargetView {
    pub os: Seq<char>,
    pub arch: Seq<char>,
    pub runner: Seq<char>,
    pub platform: Platform,
}

impl View for BuildTarget {
    type V = TargetView;

    open spec fn view(&self) -> TargetView {
        TargetView {
            os: self.os@,
            arch: self.arch@,
            runner: self.runner@,
            platform: self.platform,
        }
    }
}

/// A target from its parts.
pub open spec fn target(
    os: Seq<char>,
    arch: Seq<char>,
    runner: Seq<char>,
    platform: Platform,
) -> TargetView {
    TargetView { os, arch, runner, platform }
}

/// Every target of a release.
pub open spec fn targets() -> Seq<TargetView> {
    seq![
        target("macos"@, "aarch64"@, "macos-15"@, Platform::Mac),
        target("macos"@, "x86_64"@, "macos-15-intel"@, Platform::Mac),
        target("linux"@, "aarch64"@, "ubuntu-22.04-arm"@, Platform::Linux),
        target("linux"@, "x86_64"@, "ubuntu-22.04"@, Platform::Linux),
        target("windows"@, "aarch64"@, "windows-2022"@, Platform::Windows),
        target("windows"@, "x86_64"@, "windows-2022"@, Platform::Windows),
    ]
}

/// The identifier of the job that builds a target.
pub open spec fn build_id(target: TargetView) -> Seq<char> {
    "build_"@ + target.os + "_"@ + target.arch
}

/// The script that installs the signing tools, bundles for Windows, and fails unless the
/// installer carries a valid signature.
pub open spec fn windows_script(arch: Seq<char>) -> Seq<char> {
    "$ErrorActionPreference = 'Stop'\n$PSNativeCommandUseErrorActionPreference = $true\nInstall-Module -Name TrustedSigning -RequiredVersion 0.5.8 -Scope CurrentUser -Force -Repository PSGallery\nImport-Module TrustedSigning\n./script/bundle-windows.ps1 -Architecture "@
        + arch + "\n$signature = Get-AuthenticodeSignature \"target/Zed-"@ + arch
        + ".exe\"\nif ($signature.Status -ne 'Valid') { throw 'Installer signature validation failed' }"@
}

/// The steps that bundle a target.
pub open spec fn bundle_steps(target: TargetView) -> Seq<StepView> {
    if target.os == "linux"@ {
        seq![
            command_step("Install Linux dependencies"@, "sudo apt-get update\nscript/linux"@),
            command_step("Bundle Linux"@, "script/bundle-linux"@),
        ]
    } else if target.os == "macos"@ {
        seq![
            command_step(
                "Bundle and notarize macOS"@,
                "script/bundle-mac "@ + target.arch + "-apple-darwin"@,
            ),
        ]
    } else {
        seq![
            StepView {
                run: Some(windows_script(target.arch)),
                shell: Some("pwsh"@),
                ..actions::named_step("Install signing tools and bundle Windows"@)
            },
        ]
    }
}

/// The name under which the artifacts of a target are handed on.
pub open spec fn artifact_name(target: TargetView) -> Seq<char> {
    "bex-"@ + target.os + "-"@ + target.arch
}

/// The step that hands the artifacts of a target on; it fails if there are none.
pub open spec fn upload_step(target: TargetView) -> StepView {
    StepView {
        uses: Some(actions::action_reference("actions"@, "upload-artifact"@, "v4"@)),
        with: seq![
            ("name"@, setting(artifact_name(target))),
            ("path"@, setting("release-artifacts/*"@)),
            ("if-no-files-found"@, setting("error"@)),
            ("compression-level"@, setting("0"@)),
        ],
        ..actions::named_step("Action"@)
    }
}

/// The step that gathers the artifacts of every target.
pub open spec fn download_step() -> StepView {
    StepView {
        uses: Some(actions::action_reference("actions"@, "download-artifact"@, "v4"@)),
        with: seq![
            ("pattern"@, setting("bex-*"@)),
            ("merge-multiple"@, setting("true"@)),
            ("path"@, setting("release-artifacts"@)),
        ],
        ..actions::named_step("Action"@)
    }
}

/// The job that tests the release automation itself.
pub open spec fn checks_job() -> JobView {
    JobView {
        runs_on: Some(setting("ubuntu-24.04"@)),
        timeout_minutes: Some(20u32),
        steps: seq![
            checkout_step(),
            python_step(),
            command_step(
                "Test publication guards"@,
                "python -m unittest discover -s script -p test_bex_release.py"@,
            ),
            command_step(
                "Verify generated workflows"@,
                "cargo xtask workflows\ngit diff --exit-code -- .github/workflows extensions/workflows\ncargo xtask check-workflows"@,
            ),
        ],
        ..actions::named_job("Test release automation"@)
    }
}

/// The job that checks, for a tag of the repository alone, that the release can be made.
pub open spec fn validate_job(envs: BundleView) -> JobView {
    JobView {
        runs_on: Some(setting("ubuntu-24.04"@)),
        needs: seq!["checks"@],
        cond: Some(
            "github.repository == 'bex-co/bex-desktop' && startsWith(github.ref, 'refs/tags/v')"@,
        ),
        timeout_minutes: Some(10u32),
        steps: seq![
            checkout_step(),
            python_step(),
            with_token(
                command_step("Validate tag and version"@, "python script/bex-release.py validate"@),
            ),
            StepView {
                env: Some(put_all(envs.mac, signing_variables())),
                ..command_step(
                    "Check signing credentials"@,
                    "python script/bex-release.py check-signing"@,
                )
            },
        ],
        ..actions::named_job("Validate release and signing configuration"@)
    }
}

/// The job that builds a target.
pub open spec fn build_job(envs: BundleView, target: TargetView) -> JobView {
    JobView {
        runs_on: Some(setting(target.runner)),
        needs: seq!["validate"@],
        timeout_minutes: Some(180u32),
        env: Some(put_all(bundle_env(envs, target.platform), signer_variables())),
        steps: seq![
            checkout_step(),
            python_step(),
            command_step("Prepare stable build"@, "python script/bex-release.py prepare"@),
            node_step(),
        ] + bundle_steps(target) + seq![
            command_step(
                "Collect release artifacts"@,
                "python script/bex-release.py collect "@ + target.os + " "@ + target.arch,
            ),
            upload_step(target),
        ],
        ..actions::named_job(build_id(target))
    }
}

/// The job that publishes what every build handed on.
pub open spec fn publish_job() -> JobView {
    JobView {
        runs_on: Some(setting("ubuntu-24.04"@)),
        needs: targets().map_values(|target: TargetView| build_id(target)),
        permissions: Some(actions::contents_only(Access::Write)),
        timeout_minutes: Some(15u32),
        steps: seq![
            checkout_step(),
            python_step(),
            download_step(),
            with_token(
                command_step(
                    "Verify artifacts and publish"@,
                    "python script/bex-release.py publish"@,
                ),
            ),
        ],
        ..actions::named_job("Publish complete stable release"@)
    }
}

/// The jobs that build the targets, each by its identifier.
pub open spec fn build_jobs(envs: BundleView) -> Seq<(Seq<char>, JobView)> {
    targets().map_values(|target: TargetView| (build_id(target), build_job(envs, target)))
}

/// What starts a release: a version tag, a change of the release automation on the main branch,
/// or a hand.
pub open spec fn release_event() -> EventView {
    EventView {
        push: Some(
            PushView {
                tags: seq!["v*"@],
                branches: seq!["main"@],
                paths: seq![
                    "script/bex-release.py"@,
                    "script/test_bex_release.py"@,
                    "tooling/xtask/src/tasks/workflows/bex_release.rs"@,
                    ".github/workflows/bex_release.yml"@,
                ],
            },
        ),
        dispatch: true,
        plain: true,
    }
}

/// The release workflow.
pub open spec fn release_workflow(envs: BundleView) -> WorkflowView {
    WorkflowView {
        on: Some(release_event()),
        permissions: Some(actions::contents_only(Access::Read)),
        concurrency: Some(
            ConcurrencyView { group: "bex-stable-release"@, cancel_in_progress: false },
        ),
        env: seq![
            ("CARGO_INCREMENTAL"@, setting("0"@)),
            ("BEX_RELEASE_TAG"@, setting("${{ github.ref_name }}"@)),
        ],
        jobs: seq![("checks"@, checks_job()), ("validate"@, validate_job(envs))]
            + build_jobs(envs) + seq![("publish"@, publish_job())],
        ..actions::named_workflow("bex_release"@)
    }
}

/// The step that checks the sources out.
pub fn checkout() -> (step: gh_workflow::Step<gh_workflow::Use>)
    ensures
        actions::action_contents(step) == checkout_step(),
{
    let step = actions::use_action("Action", "actions", "checkout", "v4");
    let step = actions::add_with(step, "fetch-depth", "0");
    let step = actions::add_with(step, "persist-credentials", "false");
    proof {
        let first = seq![("fetch-depth"@, setting("0"@))];
        assert("fetch-depth"@.len() != "persist-credentials"@.len()) by {
            reveal_strlit("fetch-depth");
            reveal_strlit("persist-credentials");
        }
        actions::lemma_put_new(
            Seq::<(Seq<char>, SettingView)>::empty(),
            "fetch-depth"@,
            setting("0"@),
        );
        actions::lemma_put_new(first, "persist-credentials"@, setting("false"@));
        assert(actions::action_contents(step).with == checkout_step().with);
    }
    step
}

/// The step that installs Python.
pub fn python() -> (step: gh_workflow::Step<gh_workflow::Use>)
    ensures
        actions::action_contents(step) == python_step(),
{
    let step = actions::use_action("Action", "actions", "setup-python", "v5");
    let step = actions::add_with(step, "python-version", "3.12");
    proof {
        actions::lemma_put_new(
            Seq::<(Seq<char>, SettingView)>::empty(),
            "python-version"@,
            setting("3.12"@),
        );
    }
    step
}

/// The step that runs `script` in bash.
pub fn command(name: &str, script: &str) -> (step: gh_workflow::Step<gh_workflow::Run>)
    ensures
        actions::command_contents(step) == command_step(name@, script@),
{
    actions::with_shell(actions::run_script(name, script), "bash")
}

/// The step that installs Node.
fn node() -> (step: gh_workflow::Step<gh_workflow::Use>)
    ensures
        actions::action_contents(step) == node_step(),
{
    let step = actions::use_action("Action", "actions", "setup-node", "v4");
    let step = actions::add_with(step, "node-version", "22");
    proof {
        actions::lemma_put_new(
            Seq::<(Seq<char>, SettingView)>::empty(),
            "node-version"@,
            setting("22"@),
        );
    }
    step
}

/// The step that runs `script` in bash with the workflow's token in its environment.
fn command_with_token(name: &str, script: &str) -> (step: gh_workflow::Step<gh_workflow::Run>)
    ensures
        actions::command_contents(step) == with_token(command_step(name@, script@)),
{
    let step = actions::with_variable(command(name, script), "GH_TOKEN", "${{ github.token }}");
    proof {
        actions::lemma_put_new(
            Seq::<(Seq<char>, SettingView)>::empty(),
            "GH_TOKEN"@,
            setting("${{ github.token }}"@),
        );
    }
    step
}

/// Sets each of `additions` in turn.
fn env_add_all(env: gh_workflow::Env, additions: &[(&str, &str)]) -> (result: gh_workflow::Env)
    ensures
        actions::env_contents(result) == put_all(
            actions::env_contents(env),
            pairs(additions@),
        ),
{
    let mut result = env;
    let mut i: usize = 0;
    proof {
        assert(pairs(additions@).take(0) == Seq::<(Seq<char>, Seq<char>)>::empty());
    }
    while i < additions.len()
        invariant
            i <= additions@.len(),
            actions::env_contents(result) == put_all(
                actions::env_contents(env),
                pairs(additions@).take(i as int),
            ),
        decreases additions@.len() - i,
    {
        proof {
            let set = pairs(additions@).take(i + 1);
            assert(set.drop_last() == pairs(additions@).take(i as int));
            assert(set.last() == (additions@[i as int].0@, additions@[i as int].1@));
        }
        result = actions::env_add(result, additions[i].0, additions[i].1);
        i = i + 1;
    }
    proof {
        assert(pairs(additions@).take(i as int) == pairs(additions@));
    }
    result
}

/// Every target of a release.
fn build_targets() -> (list: Vec<BuildTarget>)
    ensures
        list@.map_values(|target: BuildTarget| target@) == targets(),
{
    let list = vec![
        BuildTarget {
            os: "macos",
            arch: "aarch64",
            runner: "macos-15",
            platform: Platform::Mac,
        },
        BuildTarget {
            os: "macos",
            arch: "x86_64",
            runner: "macos-15-intel",
            platform: Platform::Mac,
        },
        BuildTarget {
            os: "linux",
            arch: "aarch64",
            runner: "ubuntu-22.04-arm",
            platform: Platform::Linux,
        },
        BuildTarget {
            os: "linux",
            arch: "x86_64",
            runner: "ubuntu-22.04",
            platform: Platform::Linux,
        },
        BuildTarget {
            os: "windows",
            arch: "aarch64",
            runner: "windows-2022",
            platform: Platform::Windows,
        },
        BuildTarget {
            os: "windows",
            arch: "x86_64",
            runner: "windows-2022",
            platform: Platform::Windows,
        },
    ];
    proof {
        assert(list@.map_values(|target: BuildTarget| target@) =~= targets());
    }
    list
}

/// The job that tests the release automation itself.
fn checks() -> (job: gh_workflow::Job)
    ensures
        actions::job_contents(job) == checks_job(),
{
    let job = actions::new_job("Test release automation");
    let job = actions::runs_on(job, "ubuntu-24.04");
    let job = actions::timeout_minutes(job, 20);
    let job = actions::add_action(job, checkout());
    let job = actions::add_action(job, python());
    let job = actions::add_command(
        job,
        command(
            "Test publication guards",
            "python -m unittest discover -s script -p test_bex_release.py",
        ),
    );
    let job = actions::add_command(
        job,
        command(
            "Verify generated workflows",
            "cargo xtask workflows\ngit diff --exit-code -- .github/workflows extensions/workflows\ncargo xtask check-workflows",
        ),
    );
    proof {
        assert(actions::job_contents(job).steps =~= checks_job().steps);
    }
    job
}

/// The job that checks that the release can be made.
fn validate(envs: &BundleEnvs) -> (job: gh_workflow::Job)
    ensures
        actions::job_contents(job) == validate_job(envs@),
{
    let additions = [
        ("MACOS_SIGNING_IDENTITY", "${{ vars.MACOS_SIGNING_IDENTITY }}"),
        ("AZURE_TENANT_ID", "${{ secrets.AZURE_SIGNING_TENANT_ID }}"),
        ("AZURE_CLIENT_ID", "${{ secrets.AZURE_SIGNING_CLIENT_ID }}"),
        ("AZURE_CLIENT_SECRET", "${{ secrets.AZURE_SIGNING_CLIENT_SECRET }}"),
        ("ACCOUNT_NAME", "${{ vars.AZURE_SIGNING_ACCOUNT_NAME }}"),
        ("CERT_PROFILE_NAME", "${{ vars.AZURE_SIGNING_CERT_PROFILE_NAME }}"),
        ("ENDPOINT", "${{ vars.AZURE_SIGNING_ENDPOINT }}"),
        ("WINDOWS_SIGNING_PUBLISHER", "${{ vars.WINDOWS_SIGNING_PUBLISHER }}"),
    ];
    let signing = env_add_all(actions::env_clone(&envs.mac), &additions);
    let job = actions::new_job("Validate release and signing configuration");
    let job = actions::add_needs(job, "checks");
    let job = actions::runs_on(job, "ubuntu-24.04");
    let job = actions::cond(
        job,
        "github.repository == 'bex-co/bex-desktop' && startsWith(github.ref, 'refs/tags/v')",
    );
    let job = actions::timeout_minutes(job, 10);
    let job = actions::add_action(job, checkout());
    let job = actions::add_action(job, python());
    let job = actions::add_command(
        job,
        command_with_token("Validate tag and version", "python script/bex-release.py validate"),
    );
    let job = actions::add_command(
        job,
        actions::with_env(
            command("Check signing credentials", "python script/bex-release.py check-signing"),
            signing,
        ),
    );
    proof {
        assert(pairs(additions@) =~= signing_variables());
        assert(actions::job_contents(job).steps =~= validate_job(envs@).steps);
    }
    job
}

/// The identifier of the job that builds a target.
fn build_name(target: &BuildTarget) -> (name: String)
    ensures
        name@ == build_id(target@),
{
    let mut name = "build_".to_owned();
    name.append(target.os);
    name.append("_");
    name.append(target.arch);
    name
}

/// The script that bundles for Windows.
fn windows_bundle_script(arch: &str) -> (script: String)
    ensures
        script@ == windows_script(arch@),
{
    let mut script = "$ErrorActionPreference = 'Stop'\n$PSNativeCommandUseErrorActionPreference = $true\nInstall-Module -Name TrustedSigning -RequiredVersion 0.5.8 -Scope CurrentUser -Force -Repository PSGallery\nImport-Module TrustedSigning\n./script/bundle-windows.ps1 -Architecture ".to_owned();
    script.append(arch);
    script.append("\n$signature = Get-AuthenticodeSignature \"target/Zed-");
    script.append(arch);
    script.append(
        ".exe\"\nif ($signature.Status -ne 'Valid') { throw 'Installer signature validation failed' }",
    );
    script
}

/// Adds the steps that bundle a target.
fn add_bundle(job: gh_workflow::Job, target: &BuildTarget) -> (result: gh_workflow::Job)
    ensures
        actions::job_contents(result) == (JobView {
            steps: actions::job_contents(job).steps + bundle_steps(target@),
            ..actions::job_contents(job)
        }),
{
    let ghost before = actions::job_contents(job).steps;
    if text::same_text(target.os, "linux") {
        let job = actions::add_command(
            job,
            command("Install Linux dependencies", "sudo apt-get update\nscript/linux"),
        );
        let job = actions::add_command(job, command("Bundle Linux", "script/bundle-linux"));
        proof {
            assert(actions::job_contents(job).steps =~= before + bundle_steps(target@));
        }
        job
    } else if text::same_text(target.os, "macos") {
        let mut script = "script/bundle-mac ".to_owned();
        script.append(target.arch);
        script.append("-apple-darwin");
        let job = actions::add_command(
            job,
            command("Bundle and notarize macOS", script.as_str()),
        );
        proof {
            assert(actions::job_contents(job).steps =~= before + bundle_steps(target@));
        }
        job
    } else {
        let script = windows_bundle_script(target.arch);
        let step = actions::run_script(
            "Install signing tools and bundle Windows",
            script.as_str(),
        );
        let job = actions::add_command(job, actions::with_shell(step, "pwsh"));
        proof {
            assert(actions::job_contents(job).steps =~= before + bundle_steps(target@));
        }
        job
    }
}

/// The step that hands the artifacts of a target on.
fn upload(target: &BuildTarget) -> (step: gh_workflow::Step<gh_workflow::Use>)
    ensures
        actions::action_contents(step) == upload_step(target@),
{
    let mut name = "bex-".to_owned();
    name.append(target.os);
    name.append("-");
    name.append(target.arch);
    let step = actions::use_action("Action", "actions", "upload-artifact", "v4");
    let step = actions::add_with(step, "name", name.as_str());
    let step = actions::add_with(step, "path", "release-artifacts/*");
    let step = actions::add_with(step, "if-no-files-found", "error");
    let step = actions::add_with(step, "compression-level", "0");
    proof {
        reveal_strlit("name");
        reveal_strlit("path");
        reveal_strlit("if-no-files-found");
        reveal_strlit("compression-level");
        assert("name"@[0] != "path"@[0]);
        assert("if-no-files-found"@[0] != "compression-level"@[0]);
        assert("name"@.len() == "path"@.len());
        assert("name"@.len() != "if-no-files-found"@.len());
        assert("name"@.len() != "compression-level"@.len());
        let none = Seq::<(Seq<char>, SettingView)>::empty();
        let one = none.push(("name"@, setting(artifact_name(target@))));
        let two = one.push(("path"@, setting("release-artifacts/*"@)));
        let three = two.push(("if-no-files-found"@, setting("error"@)));
        actions::lemma_put_new(none, "name"@, setting(artifact_name(target@)));
        actions::lemma_put_new(one, "path"@, setting("release-artifacts/*"@));
        actions::lemma_put_new(two, "if-no-files-found"@, setting("error"@));
        actions::lemma_put_new(three, "compression-level"@, setting("0"@));
        assert(actions::action_contents(step).with =~= upload_step(target@).with);
    }
    step
}

/// The step that gathers the artifacts of every target.
fn download() -> (step: gh_workflow::Step<gh_workflow::Use>)
    ensures
        actions::action_contents(step) == download_step(),
{
    let step = actions::use_action("Action", "actions", "download-artifact", "v4");
    let step = actions::add_with(step, "pattern", "bex-*");
    let step = actions::add_with(step, "merge-multiple", "true");
    let step = actions::add_with(step, "path", "release-artifacts");
    proof {
        reveal_strlit("pattern");
        reveal_strlit("merge-multiple");
        reveal_strlit("path");
        assert("pattern"@.len() != "merge-multiple"@.len());
        assert("pattern"@.len() != "path"@.len());
        assert("merge-multiple"@.len() != "path"@.len());
        let none = Seq::<(Seq<char>, SettingView)>::empty();
        let one = none.push(("pattern"@, setting("bex-*"@)));
        let two = one.push(("merge-multiple"@, setting("true"@)));
        actions::lemma_put_new(none, "pattern"@, setting("bex-*"@));
        actions::lemma_put_new(one, "merge-multiple"@, setting("true"@));
        actions::lemma_put_new(two, "path"@, setting("release-artifacts"@));
        assert(actions::action_contents(step).with =~= download_step().with);
    }
    step
}

/// The job that builds a target.
fn build(envs: &BundleEnvs, target: &BuildTarget) -> (job: gh_workflow::Job)
    ensures
        actions::job_contents(job) == build_job(envs@, target@),
{
    let bundle = match target.platform {
        Platform::Windows => actions::env_clone(&envs.windows),
        Platform::Linux => actions::env_clone(&envs.linux),
        Platform::Mac => actions::env_clone(&envs.mac),
    };
    let additions = [
        ("WINDOWS_SIGNING_PUBLISHER", "${{ vars.WINDOWS_SIGNING_PUBLISHER }}"),
        ("MACOS_SIGNING_IDENTITY", "${{ vars.MACOS_SIGNING_IDENTITY }}"),
    ];
    let mut script = "python script/bex-release.py collect ".to_owned();
    script.append(target.os);
    script.append(" ");
    script.append(target.arch);
    let job = actions::new_job(build_name(target).as_str());
    let job = actions::runs_on(job, target.runner);
    let job = actions::add_needs(job, "validate");
    let job = actions::timeout_minutes(job, 180);
    let job = actions::job_env(job, env_add_all(bundle, &additions));
    let job = actions::add_action(job, checkout());
    let job = actions::add_action(job, python());
    let job = actions::add_command(
        job,
        command("Prepare stable build", "python script/bex-release.py prepare"),
    );
    let job = actions::add_action(job, node());
    let job = add_bundle(job, target);
    let job = actions::add_command(
        job,
        command("Collect release artifacts", script.as_str()),
    );
    let job = actions::add_action(job, upload(target));
    proof {
        assert(pairs(additions@) =~= signer_variables());
        assert(actions::job_contents(job).steps =~= build_job(envs@, target@).steps);
    }
    job
}

/// The job that publishes what the jobs `builds` handed on.
fn publish(builds: Vec<String>) -> (job: gh_workflow::Job)
    requires
        text::texts(builds@) == publish_job().needs,
    ensures
        actions::job_contents(job) == publish_job(),
{
    let job = actions::new_job("Publish complete stable release");
    let job = actions::runs_on(job, "ubuntu-24.04");
    let job = actions::needs(job, builds);
    let job = actions::job_permissions(job, actions::contents_permission(Access::Write));
    let job = actions::timeout_minutes(job, 15);
    let job = actions::add_action(job, checkout());
    let job = actions::add_action(job, python());
    let job = actions::add_action(job, download());
    let job = actions::add_command(
        job,
        command_with_token("Verify artifacts and publish", "python script/bex-release.py publish"),
    );
    proof {
        assert(actions::job_contents(job).steps =~= publish_job().steps);
    }
    job
}

/// What starts a release.
fn release_trigger() -> (event: gh_workflow::Event)
    ensures
        actions::event_contents(event) == release_event(),
{
    let filter = PushFilter {
        tags: vec!["v*".to_owned()],
        branches: vec!["main".to_owned()],
        paths: vec![
            "script/bex-release.py".to_owned(),
            "script/test_bex_release.py".to_owned(),
            "tooling/xtask/src/tasks/workflows/bex_release.rs".to_owned(),
            ".github/workflows/bex_release.yml".to_owned(),
        ],
    };
    proof {
        let push = release_event().push->0;
        assert(filter@.tags =~= push.tags);
        assert(filter@.branches =~= push.branches);
        assert(filter@.paths =~= push.paths);
    }
    actions::or_dispatch(actions::on_push(filter))
}

/// What tells the identifiers of the jobs apart: their first letters, and among the builds the
/// first letter of the operating system and the length of the processor's name.
pub proof fn lemma_job_ids()
    ensures
        "checks"@[0] == 'c',
        "validate"@[0] == 'v',
        "publish"@[0] == 'p',
        forall|i: int| 0 <= i < targets().len() ==> build_id(#[trigger] targets()[i])[0] == 'b',
        forall|i: int, j: int|
            0 <= i < j < targets().len() ==> build_id(#[trigger] targets()[i]) != build_id(
                #[trigger] targets()[j],
            ),
{
    reveal_strlit("checks");
    reveal_strlit("validate");
    reveal_strlit("publish");
    reveal_strlit("build_");
    reveal_strlit("_");
    reveal_strlit("macos");
    reveal_strlit("linux");
    reveal_strlit("windows");
    reveal_strlit("aarch64");
    reveal_strlit("x86_64");
    let os = seq!['m', 'm', 'l', 'l', 'w', 'w'];
    assert forall|i: int| 0 <= i < targets().len() implies {
        &&& build_id(#[trigger] targets()[i])[0] == 'b'
        &&& build_id(targets()[i])[6] == os[i]
        &&& build_id(targets()[i]).len() == 7 + targets()[i].os.len() + targets()[i].arch.len()
    } by {
        assert(build_id(targets()[i])[0] == "build_"@[0]);
        assert(build_id(targets()[i])[6] == targets()[i].os[0]);
    }
    assert forall|i: int, j: int| 0 <= i < j < targets().len() implies build_id(
        #[trigger] targets()[i],
    ) != build_id(#[trigger] targets()[j]) by {
        if os[i] == os[j] {
            assert(j == i + 1);
            assert(targets()[i].arch == "aarch64"@);
            assert(targets()[j].arch == "x86_64"@);
            assert(targets()[i].os == targets()[j].os);
        }
    }
}

/// Builds the release workflow.
pub fn bex_release(envs: &BundleEnvs) -> (workflow: gh_workflow::Workflow)
    ensures
        actions::workflow_contents(workflow) == release_workflow(envs@),
{
    let workflow = actions::new_workflow("bex_release");
    let workflow = actions::on(workflow, release_trigger());
    let workflow = actions::workflow_permissions(
        workflow,
        actions::contents_permission(Access::Read),
    );
    let workflow = actions::concurrency(workflow, "bex-stable-release", false);
    let workflow = actions::workflow_variable(workflow, "CARGO_INCREMENTAL", "0");
    let workflow = actions::workflow_variable(
        workflow,
        "BEX_RELEASE_TAG",
        "${{ github.ref_name }}",
    );
    let workflow = actions::add_job(workflow, "checks", checks());
    let mut workflow = actions::add_job(workflow, "validate", validate(envs));
    let ghost head = seq![("checks"@, checks_job()), ("validate"@, validate_job(envs@))];
    proof {
        lemma_job_ids();
        assert("CARGO_INCREMENTAL"@.len() != "BEX_RELEASE_TAG"@.len()) by {
            reveal_strlit("CARGO_INCREMENTAL");
            reveal_strlit("BEX_RELEASE_TAG");
        }
        let no_variable = Seq::<(Seq<char>, SettingView)>::empty();
        let variable = no_variable.push(("CARGO_INCREMENTAL"@, setting("0"@)));
        actions::lemma_put_new(no_variable, "CARGO_INCREMENTAL"@, setting("0"@));
        actions::lemma_put_new(variable, "BEX_RELEASE_TAG"@, setting("${{ github.ref_name }}"@));
        let no_job = Seq::<(Seq<char>, JobView)>::empty();
        let job = no_job.push(("checks"@, checks_job()));
        actions::lemma_put_new(no_job, "checks"@, checks_job());
        actions::lemma_put_new(job, "validate"@, validate_job(envs@));
        assert(actions::workflow_contents(workflow).env =~= release_workflow(envs@).env);
        assert(actions::workflow_contents(workflow).jobs =~= head);
    }
    let list = build_targets();
    let mut builds: Vec<String> = Vec::new();
    let mut i: usize = 0;
    proof {
        assert(head + build_jobs(envs@).take(0) =~= head);
        assert(text::texts(builds@) =~= publish_job().needs.take(0));
    }
    while i < list.len()
        invariant
            i <= list@.len(),
            list@.map_values(|target: BuildTarget| target@) == targets(),
            head == seq![("checks"@, checks_job()), ("validate"@, validate_job(envs@))],
            text::texts(builds@) == publish_job().needs.take(i as int),
            actions::workflow_contents(workflow) == (WorkflowView {
                jobs: head + build_jobs(envs@).take(i as int),
                ..release_workflow(envs@)
            }),
        decreases list@.len() - i,
    {
        let name = build_name(&list[i]);
        let job = build(envs, &list[i]);
        let ghost before = actions::workflow_contents(workflow).jobs;
        workflow = actions::add_job(workflow, name.as_str(), job);
        proof {
            lemma_job_ids();
            assert(list@[i as int]@ == targets()[i as int]);
            assert forall|j: int| 0 <= j < before.len() implies (#[trigger] before[j]).0
                != name@ by {
                if j >= 2 {
                    assert(before[j] == build_jobs(envs@)[j - 2]);
                    assert(before[j].0 == build_id(targets()[j - 2]));
                }
            }
            actions::lemma_put_new(before, name@, build_job(envs@, targets()[i as int]));
            assert(before.push((name@, build_job(envs@, targets()[i as int]))) =~= head
                + build_jobs(envs@).take(i + 1));
        }
        let ghost built = builds@;
        let ghost id = name@;
        builds.push(name);
        proof {
            assert(text::texts(builds@) =~= text::texts(built).push(id));
            assert(text::texts(built).push(id) =~= publish_job().needs.take(i + 1));
        }
        i = i + 1;
    }
    proof {
        lemma_job_ids();
        let before = actions::workflow_contents(workflow).jobs;
        assert(list@.len() == targets().len());
        assert(before =~= head + build_jobs(envs@));
        assert(text::texts(builds@) =~= publish_job().needs);
        assert forall|j: int| 0 <= j < before.len() implies (#[trigger] before[j]).0
            != "publish"@ by {
            if j >= 2 {
                assert(before[j] == build_jobs(envs@)[j - 2]);
                assert(before[j].0 == build_id(targets()[j - 2]));
            }
        }
        actions::lemma_put_new(before, "publish"@, publish_job());
        assert(before.push(("publish"@, publish_job())) =~= release_workflow(envs@).jobs);
    }
    actions::add_job(workflow, "publish", publish(builds))
}

} // verus!
