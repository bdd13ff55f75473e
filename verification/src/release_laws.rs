//! What holds of the release workflow, whatever environments bundling needs.

use vstd::prelude::*;
use vstd::string::*;

use crate::actions;
#[allow(unused_imports)]
use crate::actions::{Access, JobView, SettingView, StepView};
use crate::release;
#[allow(unused_imports)]
use crate::release::BundleView;

verus! {

/// The value that an ordered map holds under `key`.
pub open spec fn lookup<V>(entries: Seq<(Seq<char>, V)>, key: Seq<char>) -> Option<V> {
    match actions::keys(entries).index_of_first(key) {
        Some(i) => Some(entries[i].1),
        None => None,
    }
}

/// Whether no key of an ordered map occurs twice.
pub open spec fn distinct_keys<V>(entries: Seq<(Seq<char>, V)>) -> bool {
    forall|i: int, j: int|
        0 <= i < j < entries.len() ==> (#[trigger] entries[i]).0 != (#[trigger] entries[j]).0
}

/// Setting a key changes what the map holds under that key and under no other, moves no key, and
/// lets no key occur twice.
pub proof fn put_sets_one_key<V>(
    entries: Seq<(Seq<char>, V)>,
    key: Seq<char>,
    value: V,
    other: Seq<char>,
)
    ensures
        lookup(actions::put(entries, key, value), other) == (if other == key {
            Some(value)
        } else {
            lookup(entries, other)
        }),
        actions::keys(entries).is_prefix_of(actions::keys(actions::put(entries, key, value))),
        distinct_keys(entries) ==> distinct_keys(actions::put(entries, key, value)),
{
    let after = actions::put(entries, key, value);
    let names = actions::keys(entries);
    names.index_of_first_ensures(key);
    names.index_of_first_ensures(other);
    actions::keys(after).index_of_first_ensures(key);
    actions::keys(after).index_of_first_ensures(other);
    assert forall|i: int| 0 <= i < names.len() implies actions::keys(after)[i] == names[i] by {
        assert(names[i] == entries[i].0);
        assert(actions::keys(after)[i] == after[i].0);
    }
    assert(names =~= actions::keys(after).take(names.len() as int));
    match names.index_of_first(key) {
        Some(at) => {
            assert(actions::keys(after) =~= names);
        },
        None => {
            assert(actions::keys(after) =~= names.push(key));
            assert(forall|i: int| 0 <= i < names.len() ==> names[i] != key);
            assert(actions::keys(after)[names.len() as int] == key);
            assert forall|i: int| 0 <= i < entries.len() implies (#[trigger] entries[i]).0
                != key by {
                assert(names[i] == entries[i].0);
            }
            match names.index_of_first(other) {
                Some(at) => {
                    assert(actions::keys(after)[at] == other);
                },
                None => {
                    if other != key {
                        assert(!actions::keys(after).contains(other)) by {
                            assert forall|i: int|
                                0 <= i < actions::keys(after).len() implies actions::keys(after)[i]
                                != other by {
                                if i < names.len() {
                                    assert(names.contains(names[i]));
                                }
                            }
                        }
                    }
                },
            }
        },
    }
}

/// The jobs of the release workflow.
pub open spec fn jobs(envs: BundleView) -> Seq<(Seq<char>, JobView)> {
    release::release_workflow(envs).jobs
}

/// Where each job stands.
proof fn lemma_jobs(envs: BundleView)
    ensures
        release::targets().len() == 6,
        jobs(envs).len() == 9,
        jobs(envs)[0] == ("checks"@, release::checks_job()),
        jobs(envs)[1] == ("validate"@, release::validate_job(envs)),
        forall|i: int|
            0 <= i < 6 ==> (#[trigger] jobs(envs)[i + 2]) == (
                release::build_id(release::targets()[i]),
                release::build_job(envs, release::targets()[i]),
            ),
        jobs(envs)[8] == ("publish"@, release::publish_job()),
{
    assert forall|i: int| 0 <= i < 6 implies (#[trigger] jobs(envs)[i + 2]) == (
        release::build_id(release::targets()[i]),
        release::build_job(envs, release::targets()[i]),
    ) by {
        assert(jobs(envs)[i + 2] == release::build_jobs(envs)[i]);
    }
}

/// No two jobs share an identifier.
pub proof fn job_ids_are_unique(envs: BundleView)
    ensures
        distinct_keys(jobs(envs)),
{
    lemma_jobs(envs);
    release::lemma_job_ids();
    let all = jobs(envs);
    assert forall|i: int, j: int| 0 <= i < j < all.len() implies (#[trigger] all[i]).0 != (
    #[trigger] all[j]).0 by {
        if 2 <= i < 8 {
            assert(all[(i - 2) + 2].0 == release::build_id(release::targets()[i - 2]));
        }
        if 2 <= j < 8 {
            assert(all[(j - 2) + 2].0 == release::build_id(release::targets()[j - 2]));
        }
    }
}

/// A job waits only for jobs that stand before it, so the jobs can be run in order.
pub proof fn needs_name_earlier_jobs(envs: BundleView, job: int, need: int) -> (earlier: int)
    requires
        0 <= job < jobs(envs).len(),
        0 <= need < jobs(envs)[job].1.needs.len(),
    ensures
        0 <= earlier < job,
        jobs(envs)[earlier].0 == jobs(envs)[job].1.needs[need],
{
    lemma_jobs(envs);
    if job == 8 {
        assert(jobs(envs)[need + 2].0 == release::build_id(release::targets()[need]));
        need + 2
    } else if job >= 2 {
        assert(jobs(envs)[(job - 2) + 2].1.needs == seq!["validate"@]);
        1
    } else {
        0
    }
}

/// Whether the job at `later` starts only once the one at `earlier` has succeeded: it needs that
/// job, or it needs one that waits for it, over at most `steps` needs.
pub open spec fn waits_for(
    all: Seq<(Seq<char>, JobView)>,
    later: int,
    earlier: int,
    steps: nat,
) -> bool
    decreases steps,
{
    steps > 0 && (all[later].1.needs.contains(all[earlier].0) || exists|between: int|
        0 <= between < all.len() && all[later].1.needs.contains(#[trigger] all[between].0)
            && waits_for(all, between, earlier, (steps - 1) as nat))
}

/// Nothing is built before the tag and the signing configuration are validated, and nothing is
/// published before every other job has succeeded.
pub proof fn publishing_waits_for_every_job(envs: BundleView, job: int)
    requires
        0 <= job < jobs(envs).len(),
    ensures
        jobs(envs)[jobs(envs).len() - 1] == ("publish"@, release::publish_job()),
        job < jobs(envs).len() - 1 ==> waits_for(jobs(envs), jobs(envs).len() - 1, job, 3),
        2 <= job < jobs(envs).len() - 1 ==> waits_for(jobs(envs), job, 1, 1) && waits_for(
            jobs(envs),
            job,
            0,
            2,
        ),
{
    lemma_jobs(envs);
    let all = jobs(envs);
    let validate_needs = all[1].1.needs;
    assert(validate_needs[0] == all[0].0);
    assert(waits_for(all, 1, 0, 1));
    assert forall|i: int| 2 <= i < 8 implies waits_for(all, i, 1, 1) && waits_for(all, i, 0, 2)
        && all[8].1.needs.contains(#[trigger] all[i].0) by {
        assert(all[(i - 2) + 2].1.needs[0] == all[1].0);
        assert(all[i].1.needs.contains(all[1].0));
        assert(waits_for(all, 1, 0, (2 - 1) as nat));
        assert(all[8].1.needs[i - 2] == all[(i - 2) + 2].0);
    }
    if job < 8 {
        if job >= 2 {
            assert(all[8].1.needs.contains(all[job].0));
        } else {
            assert(all[8].1.needs.contains(all[2].0));
            if job == 1 {
                assert(all[2].1.needs.contains(all[1].0));
            }
            assert(waits_for(all, 2, job, 2));
            assert(waits_for(all, 2, job, (3 - 1) as nat));
        }
    }
}

/// The token of every job can read the repository's contents at most, but for the publishing
/// job's, which can write.
pub proof fn only_publishing_writes(envs: BundleView, job: int)
    requires
        0 <= job < jobs(envs).len(),
    ensures
        release::release_workflow(envs).permissions == Some(
            actions::contents_only(Access::Read),
        ),
        jobs(envs)[job].1.permissions == (if jobs(envs)[job].0 == "publish"@ {
            Some(actions::contents_only(Access::Write))
        } else {
            None
        }),
{
    lemma_jobs(envs);
    job_ids_are_unique(envs);
    if 2 <= job < 8 {
        assert(jobs(envs)[(job - 2) + 2].1.permissions is None);
    }
    if job < 8 {
        assert(jobs(envs)[job].0 != jobs(envs)[8].0);
    }
}

/// Every job starts from a fresh checkout that leaves no credentials behind, with Python.
pub proof fn every_job_checks_out_first(envs: BundleView, job: int)
    requires
        0 <= job < jobs(envs).len(),
    ensures
        jobs(envs)[job].1.steps.len() >= 4,
        jobs(envs)[job].1.steps[0] == release::checkout_step(),
        jobs(envs)[job].1.steps[1] == release::python_step(),
        lookup(release::checkout_step().with, "persist-credentials"@) == Some(
            SettingView::Text("false"@),
        ),
{
    lemma_jobs(envs);
    if 2 <= job < 8 {
        assert(jobs(envs)[(job - 2) + 2].1 == release::build_job(
            envs,
            release::targets()[job - 2],
        ));
    }
    let inputs = release::checkout_step().with;
    let names = actions::keys(inputs);
    names.index_of_first_ensures("persist-credentials"@);
    reveal_strlit("fetch-depth");
    reveal_strlit("persist-credentials");
    assert(names[0].len() != "persist-credentials"@.len());
    assert(names[1] == "persist-credentials"@);
    assert(names.contains(names[1]));
}

/// What several additions leave under a key: the last value that they give it, or else what the
/// map held.
pub open spec fn last_addition(additions: Seq<(Seq<char>, Seq<char>)>, key: Seq<char>) -> Option<
    SettingView,
>
    decreases additions.len(),
{
    if additions.len() == 0 {
        None
    } else if additions.last().0 == key {
        Some(SettingView::Text(additions.last().1))
    } else {
        last_addition(additions.drop_last(), key)
    }
}

/// Additions to an environment override what it held and leave the rest as it was.
pub proof fn additions_override(
    entries: Seq<(Seq<char>, SettingView)>,
    additions: Seq<(Seq<char>, Seq<char>)>,
    key: Seq<char>,
)
    ensures
        lookup(release::put_all(entries, additions), key) == (match last_addition(
            additions,
            key,
        ) {
            Some(value) => Some(value),
            None => lookup(entries, key),
        }),
    decreases additions.len(),
{
    if additions.len() > 0 {
        additions_override(entries, additions.drop_last(), key);
        put_sets_one_key(
            release::put_all(entries, additions.drop_last()),
            additions.last().0,
            release::setting(additions.last().1),
            key,
        );
    }
}

/// Every build knows the signers that the repository's settings name, whatever the environment of
/// its platform says of them.
pub proof fn builds_know_their_signers(envs: BundleView, build: int)
    requires
        0 <= build < release::targets().len(),
    ensures
        ({
            let job = release::build_job(envs, release::targets()[build]);
            &&& job.env is Some
            &&& lookup(job.env->0, "WINDOWS_SIGNING_PUBLISHER"@) == Some(
                SettingView::Text("${{ vars.WINDOWS_SIGNING_PUBLISHER }}"@),
            )
            &&& lookup(job.env->0, "MACOS_SIGNING_IDENTITY"@) == Some(
                SettingView::Text("${{ vars.MACOS_SIGNING_IDENTITY }}"@),
            )
        }),
{
    let target = release::targets()[build];
    let bundle = release::bundle_env(envs, target.platform);
    let additions = release::signer_variables();
    additions_override(bundle, additions, "WINDOWS_SIGNING_PUBLISHER"@);
    additions_override(bundle, additions, "MACOS_SIGNING_IDENTITY"@);
    reveal_strlit("WINDOWS_SIGNING_PUBLISHER");
    reveal_strlit("MACOS_SIGNING_IDENTITY");
    assert("WINDOWS_SIGNING_PUBLISHER"@.len() != "MACOS_SIGNING_IDENTITY"@.len());
    assert(additions.drop_last().last() == additions[0]);
    reveal_with_fuel(last_addition, 3);
}

/// Every build hands its artifacts on under a name of its own, in its last step, and each of
/// those names matches the pattern that publishing gathers: `bex-` and anything behind it.
pub proof fn artifacts_are_gathered(envs: BundleView, build: int, other: int)
    requires
        0 <= build < release::targets().len(),
        0 <= other < release::targets().len(),
    ensures
        ({
            let target = release::targets()[build];
            let steps = release::build_job(envs, target).steps;
            &&& steps.last() == release::upload_step(target)
            &&& "bex-"@.is_prefix_of(release::artifact_name(target))
            &&& build != other ==> release::artifact_name(target) != release::artifact_name(
                release::targets()[other],
            )
        }),
        lookup(release::download_step().with, "pattern"@) == Some(
            SettingView::Text("bex-"@ + "*"@),
        ),
{
    let target = release::targets()[build];
    let second = release::targets()[other];
    assert("bex-"@ =~= release::artifact_name(target).take("bex-"@.len() as int));
    reveal_strlit("bex-");
    reveal_strlit("-");
    reveal_strlit("macos");
    reveal_strlit("linux");
    reveal_strlit("windows");
    reveal_strlit("aarch64");
    reveal_strlit("x86_64");
    let a = release::artifact_name(target);
    let b = release::artifact_name(second);
    assert(a[4] == target.os[0]);
    assert(b[4] == second.os[0]);
    assert(a.len() == 5 + target.os.len() + target.arch.len());
    assert(b.len() == 5 + second.os.len() + second.arch.len());
    let inputs = release::download_step().with;
    let names = actions::keys(inputs);
    names.index_of_first_ensures("pattern"@);
    assert(names[0] == "pattern"@);
    assert(names.contains(names[0]));
    assert("bex-*"@ =~= "bex-"@ + "*"@) by {
        reveal_strlit("bex-*");
        reveal_strlit("*");
    }
}

/// The environment that the platform of an operating system needs.
pub open spec fn env_for(envs: BundleView, os: Seq<char>) -> Seq<(Seq<char>, SettingView)> {
    if os == "macos"@ {
        envs.mac
    } else if os == "linux"@ {
        envs.linux
    } else {
        envs.windows
    }
}

/// Every build has the environment of its operating system: each variable with its value, but for
/// the two that name the signers, and in the same order.
pub proof fn builds_have_the_environment_of_their_system(
    envs: BundleView,
    build: int,
    key: Seq<char>,
)
    requires
        0 <= build < release::targets().len(),
        key != "WINDOWS_SIGNING_PUBLISHER"@,
        key != "MACOS_SIGNING_IDENTITY"@,
    ensures
        ({
            let target = release::targets()[build];
            let job = release::build_job(envs, target);
            &&& target.os == "macos"@ || target.os == "linux"@ || target.os == "windows"@
            &&& lookup(job.env->0, key) == lookup(env_for(envs, target.os), key)
            &&& actions::keys(env_for(envs, target.os)).is_prefix_of(actions::keys(job.env->0))
        }),
{
    let target = release::targets()[build];
    let bundle = env_for(envs, target.os);
    let additions = release::signer_variables();
    lemma_systems();
    assert(bundle == release::bundle_env(envs, target.platform));
    additions_override(bundle, additions, key);
    additions_keep_the_order(bundle, additions);
    assert(additions.drop_last().last() == additions[0]);
    reveal_with_fuel(last_addition, 3);
}

/// The systems are told apart by their first letters.
proof fn lemma_systems()
    ensures
        "macos"@[0] == 'm',
        "linux"@[0] == 'l',
        "windows"@[0] == 'w',
{
    reveal_strlit("macos");
    reveal_strlit("linux");
    reveal_strlit("windows");
}

/// Additions to an environment move no variable that was there.
pub proof fn additions_keep_the_order(
    entries: Seq<(Seq<char>, SettingView)>,
    additions: Seq<(Seq<char>, Seq<char>)>,
)
    ensures
        actions::keys(entries).is_prefix_of(actions::keys(release::put_all(entries, additions))),
    decreases additions.len(),
{
    if additions.len() > 0 {
        additions_keep_the_order(entries, additions.drop_last());
        put_sets_one_key(
            release::put_all(entries, additions.drop_last()),
            additions.last().0,
            release::setting(additions.last().1),
            additions.last().0,
        );
    }
}

/// The step that checks the signing credentials.
pub open spec fn signing_step(envs: BundleView) -> StepView {
    release::validate_job(envs).steps[3]
}

/// The check of the signing credentials sees the environment of macOS, each variable with its value
/// and in order, but for the variables that it sets itself.
pub proof fn signing_check_has_the_environment_of_macos(envs: BundleView, key: Seq<char>, i: int)
    requires
        0 <= i < 8,
    ensures
        signing_step(envs).env is Some,
        actions::keys(envs.mac).is_prefix_of(actions::keys(signing_step(envs).env->0)),
        (forall|j: int| 0 <= j < 8 ==> (#[trigger] release::signing_variables()[j]).0 != key)
            ==> lookup(signing_step(envs).env->0, key) == lookup(envs.mac, key),
        release::signing_variables().len() == 8,
        lookup(signing_step(envs).env->0, release::signing_variables()[i].0) == Some(
            SettingView::Text(release::signing_variables()[i].1),
        ),
{
    let additions = release::signing_variables();
    additions_keep_the_order(envs.mac, additions);
    additions_override(envs.mac, additions, key);
    lemma_no_addition(additions, key);
    additions_override(envs.mac, additions, additions[i].0);
    lemma_signing_variables();
    lemma_one_addition(additions, i);
}

/// A key that no addition sets is not added.
proof fn lemma_no_addition(additions: Seq<(Seq<char>, Seq<char>)>, key: Seq<char>)
    ensures
        (forall|j: int| 0 <= j < additions.len() ==> (#[trigger] additions[j]).0 != key)
            ==> last_addition(additions, key) is None,
    decreases additions.len(),
{
    if additions.len() > 0 {
        lemma_no_addition(additions.drop_last(), key);
        if forall|j: int| 0 <= j < additions.len() ==> (#[trigger] additions[j]).0 != key {
            assert forall|j: int| 0 <= j < additions.drop_last().len() implies (
            #[trigger] additions.drop_last()[j]).0 != key by {
                assert(additions.drop_last()[j] == additions[j]);
            }
            assert(additions[additions.len() - 1].0 != key);
        }
    }
}

/// A key that one addition alone sets has the value of that addition.
proof fn lemma_one_addition(additions: Seq<(Seq<char>, Seq<char>)>, i: int)
    requires
        0 <= i < additions.len(),
        distinct_keys(additions),
    ensures
        last_addition(additions, additions[i].0) == Some(SettingView::Text(additions[i].1)),
    decreases additions.len(),
{
    let front = additions.drop_last();
    if i < additions.len() - 1 {
        assert(front[i] == additions[i]);
        assert(distinct_keys(front)) by {
            assert forall|j: int, k: int| 0 <= j < k < front.len() implies (#[trigger] front[j]).0
                != (#[trigger] front[k]).0 by {
                assert(front[j] == additions[j]);
                assert(front[k] == additions[k]);
            }
        }
        assert(additions[i].0 != additions[additions.len() - 1].0);
        lemma_one_addition(front, i);
    }
}

/// The signing variables have names of their own.
proof fn lemma_signing_variables()
    ensures
        distinct_keys(release::signing_variables()),
{
    reveal_strlit("MACOS_SIGNING_IDENTITY");
    reveal_strlit("AZURE_TENANT_ID");
    reveal_strlit("AZURE_CLIENT_ID");
    reveal_strlit("AZURE_CLIENT_SECRET");
    reveal_strlit("ACCOUNT_NAME");
    reveal_strlit("CERT_PROFILE_NAME");
    reveal_strlit("ENDPOINT");
    reveal_strlit("WINDOWS_SIGNING_PUBLISHER");
    let lengths = seq![22int, 15, 15, 19, 12, 17, 8, 25];
    let all = release::signing_variables();
    assert("AZURE_TENANT_ID"@[6] == 'T');
    assert("AZURE_CLIENT_ID"@[6] == 'C');
    assert forall|i: int| 0 <= i < all.len() implies (#[trigger] all[i]).0.len()
        == lengths[i] by {}
    assert forall|i: int, j: int| 0 <= i < j < all.len() implies (#[trigger] all[i]).0 != (
    #[trigger] all[j]).0 by {
        if lengths[i] == lengths[j] {
            assert(i == 1 && j == 2);
        }
    }
}

/// A command step runs the script that it was given, whole, in bash, under the name that it was
/// given, and sets nothing else.
pub proof fn commands_run_their_script(name: Seq<char>, script: Seq<char>)
    ensures
        ({
            let step = release::command_step(name, script);
            &&& step.name == Some(name)
            &&& step.run == Some(script)
            &&& step.shell == Some("bash"@)
            &&& step.uses is None && step.env is None && step.with.len() == 0 && step.plain
        }),
{
}

/// `step` without its environment.
pub open spec fn bare_step(step: StepView) -> StepView {
    StepView { env: None, ..step }
}

/// `job` without its environment and its steps.
pub open spec fn bare_job(job: JobView) -> JobView {
    JobView { env: None, steps: seq![], ..job }
}

/// The environments that bundling needs show in the environments of the builds and of the check of
/// the signing credentials, and nowhere else in the workflow.
pub proof fn environments_show_nowhere_else(a: BundleView, b: BundleView, job: int, step: int)
    requires
        0 <= job < jobs(a).len(),
        0 <= step < jobs(a)[job].1.steps.len(),
    ensures
        ({
            let one = release::release_workflow(a);
            let two = release::release_workflow(b);
            &&& one.name == two.name && one.on == two.on && one.permissions == two.permissions
            &&& one.concurrency == two.concurrency && one.env == two.env && one.plain == two.plain
            &&& one.jobs.len() == two.jobs.len()
        }),
        jobs(a)[job].0 == jobs(b)[job].0,
        bare_job(jobs(a)[job].1) == bare_job(jobs(b)[job].1),
        jobs(a)[job].1.steps.len() == jobs(b)[job].1.steps.len(),
        bare_step(jobs(a)[job].1.steps[step]) == bare_step(jobs(b)[job].1.steps[step]),
        !(job == 1 && step == 3) ==> jobs(a)[job].1.steps[step] == jobs(b)[job].1.steps[step],
        !(2 <= job < 8) ==> jobs(a)[job].1.env is None,
{
    lemma_jobs(a);
    lemma_jobs(b);
    if 2 <= job < 8 {
        assert(jobs(a)[(job - 2) + 2].1 == release::build_job(a, release::targets()[job - 2]));
        assert(jobs(b)[(job - 2) + 2].1 == release::build_job(b, release::targets()[job - 2]));
    }
}

} // verus!
