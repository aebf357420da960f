//! Properties of the pipeline graph that hold across configurations.
use vstd::prelude::*;

use crate::bridge::BridgeModel;
use crate::pipeline::{
    build_step, expanded_platforms, gets_job, job_platforms, job_model, pipeline_model,
    setup_steps, test_steps, Interpreter, JobName, JobView, Options, Step,
};
use crate::platform::{all_platforms, default_platforms, platform_name, Platform};
use crate::render::{comma_list, job_name_text, needs_text_lists_names, release_tail, release_text};
use crate::text;

verus! {

broadcast use vstd::seq_lib::group_filter_ensures;

/// Asking for every platform gives manylinux, musllinux, Windows and macOS
/// for a binary, and Emscripten besides for an extension module.
pub proof fn wildcard_expansion(bridge: BridgeModel)
    ensures
        expanded_platforms(seq![Platform::All], bridge.spec_is_bin()) == if bridge.spec_is_bin() {
            default_platforms()
        } else {
            all_platforms()
        },
{
    let req = seq![Platform::All];
    assert(req.contains(Platform::All)) by {
        assert(req[0] == Platform::All);
    }
    reveal_with_fuel(Seq::filter, 6);
    let all = all_platforms();
    assert(all.drop_last() =~= default_platforms());
    assert(all.drop_last().drop_last() =~= seq![
        Platform::ManyLinux,
        Platform::Musllinux,
        Platform::Windows,
    ]);
    assert(all.drop_last().drop_last().drop_last() =~= seq![
        Platform::ManyLinux,
        Platform::Musllinux,
    ]);
    assert(all.drop_last().drop_last().drop_last().drop_last() =~= seq![Platform::ManyLinux]);
    assert(all.drop_last().drop_last().drop_last().drop_last().drop_last() =~= Seq::<
        Platform,
    >::empty());
    if bridge.spec_is_bin() {
        assert(expanded_platforms(req, true) =~= default_platforms());
    } else {
        assert(expanded_platforms(req, false) =~= all_platforms());
    }
}

/// A binary gets no Emscripten job, and the release does not wait for one,
/// whatever was asked for.
pub proof fn binary_skips_emscripten(
    requested: Seq<Platform>,
    bridge: BridgeModel,
    opts: Options,
    sdist: bool,
)
    requires
        bridge.spec_is_bin(),
    ensures
        forall|i: int|
            0 <= i < pipeline_model(requested, bridge, opts, sdist).jobs.len() ==> (
            #[trigger] pipeline_model(requested, bridge, opts, sdist).jobs[i]).platform
                != Platform::Emscripten,
        !pipeline_model(requested, bridge, opts, sdist).release.needs.contains(
            JobName::Platform(Platform::Emscripten),
        ),
{
    let ps = job_platforms(requested, true);
    let f = |p: Platform| gets_job(true, p);
    let m = pipeline_model(requested, bridge, opts, sdist);
    assert forall|i: int| 0 <= i < m.jobs.len() implies (#[trigger] m.jobs[i]).platform
        != Platform::Emscripten by {
        assert(m.jobs[i] == job_model(ps[i], bridge, opts));
        assert(f(ps[i]));
    }
    if m.release.needs.contains(JobName::Platform(Platform::Emscripten)) {
        let k = choose|k: int|
            0 <= k < m.release.needs.len() && m.release.needs[k] == JobName::Platform(
                Platform::Emscripten,
            );
        if k < ps.len() {
            assert(f(ps[k]));
        } else {
            assert(m.release.needs[k] == JobName::Sdist);
        }
    }
}

/// The release waits for every platform job in the order they are emitted,
/// then for the sdist job exactly where one is built.
pub proof fn release_waits_for_all_jobs(
    requested: Seq<Platform>,
    bridge: BridgeModel,
    opts: Options,
    sdist: bool,
)
    ensures
        pipeline_model(requested, bridge, opts, sdist).release.needs == pipeline_model(
            requested,
            bridge,
            opts,
            sdist,
        ).jobs.map_values(|j: JobView| JobName::Platform(j.platform)) + if sdist {
            seq![JobName::Sdist]
        } else {
            seq![]
        },
{
    let m = pipeline_model(requested, bridge, opts, sdist);
    let ps = job_platforms(requested, bridge.spec_is_bin());
    assert(m.jobs.map_values(|j: JobView| JobName::Platform(j.platform)) =~= ps.map_values(
        |p: Platform| JobName::Platform(p),
    ));
}

/// The rendered release job waits for the platform jobs by name, in the
/// order they are emitted, then for `sdist` exactly where an sdist job is
/// built.
pub proof fn release_needs_rendered_in_job_order(
    requested: Seq<Platform>,
    bridge: BridgeModel,
    opts: Options,
    sdist: bool,
)
    ensures
        release_text(pipeline_model(requested, bridge, opts, sdist).release) == text::RELEASE_HEAD@
            + comma_list(
            job_platforms(requested, bridge.spec_is_bin()).map_values(|p: Platform| platform_name(p))
                + if sdist {
                seq![text::SDIST_NAME@]
            } else {
                seq![]
            },
        ) + release_tail(pipeline_model(requested, bridge, opts, sdist).release),
{
    let m = pipeline_model(requested, bridge, opts, sdist);
    let ps = job_platforms(requested, bridge.spec_is_bin());
    needs_text_lists_names(m.release.needs);
    assert(m.release.needs.map_values(|n: JobName| job_name_text(n)) =~= ps.map_values(
        |p: Platform| platform_name(p),
    ) + if sdist {
        seq![text::SDIST_NAME@]
    } else {
        seq![]
    });
}

/// Cross-compiling with zig changes the build step of the manylinux job,
/// which gains the flag, and nothing else.
pub proof fn zig_changes_only_manylinux_builds(
    requested: Seq<Platform>,
    bridge: BridgeModel,
    opts: Options,
    sdist: bool,
)
    requires
        opts.zig,
    ensures
        ({
            let plain = Options { pytest: opts.pytest, zig: false, custom_manifest: opts.custom_manifest };
            let with = pipeline_model(requested, bridge, opts, sdist);
            let without = pipeline_model(requested, bridge, plain, sdist);
            &&& with.jobs.len() == without.jobs.len()
            &&& with.release == without.release
            &&& with.sdist == without.sdist
            &&& forall|i: int|
                0 <= i < with.jobs.len() && with.jobs[i].platform != Platform::ManyLinux
                    ==> #[trigger] with.jobs[i] == without.jobs[i]
            &&& forall|i: int|
                0 <= i < with.jobs.len() && #[trigger] with.jobs[i].platform
                    == Platform::ManyLinux ==> {
                    let k = 1 + setup_steps(Platform::ManyLinux, bridge, plain).len() as int;
                    &&& without.jobs[i].platform == Platform::ManyLinux
                    &&& without.jobs[i].steps[k] == build_step(Platform::ManyLinux, bridge, plain)
                    &&& with.jobs[i].steps == without.jobs[i].steps.update(
                        k,
                        build_step(Platform::ManyLinux, bridge, opts),
                    )
                    &&& build_step(Platform::ManyLinux, bridge, opts)->zig
                    &&& !build_step(Platform::ManyLinux, bridge, plain)->zig
                }
        }),
{
    let plain = Options { pytest: opts.pytest, zig: false, custom_manifest: opts.custom_manifest };
    let with = pipeline_model(requested, bridge, opts, sdist);
    let without = pipeline_model(requested, bridge, plain, sdist);
    let ps = job_platforms(requested, bridge.spec_is_bin());
    assert forall|i: int| 0 <= i < with.jobs.len() implies {
        let p = (#[trigger] with.jobs[i]).platform;
        &&& p != Platform::ManyLinux ==> with.jobs[i] == without.jobs[i]
        &&& p == Platform::ManyLinux ==> {
            let k = 1 + setup_steps(Platform::ManyLinux, bridge, plain).len() as int;
            &&& without.jobs[i].steps[k] == build_step(Platform::ManyLinux, bridge, plain)
            &&& with.jobs[i].steps == without.jobs[i].steps.update(
                k,
                build_step(Platform::ManyLinux, bridge, opts),
            )
        }
    } by {
        let p = ps[i];
        assert(with.jobs[i] == job_model(p, bridge, opts));
        assert(without.jobs[i] == job_model(p, bridge, plain));
        assert(setup_steps(p, bridge, opts) == setup_steps(p, bridge, plain));
        assert(test_steps(p, opts) == test_steps(p, plain));
        if p != Platform::ManyLinux {
            assert(build_step(p, bridge, opts) == build_step(p, bridge, plain));
        } else {
            let k = 1 + setup_steps(p, bridge, plain).len() as int;
            assert(job_model(p, bridge, plain).steps[k] == build_step(p, bridge, plain));
            assert(job_model(p, bridge, opts).steps =~= job_model(p, bridge, plain).steps.update(
                k,
                build_step(p, bridge, opts),
            ));
        }
    }
}

/// An extension on the stable ABI is built without asking for interpreters:
/// no build step of any job names one.
pub proof fn stable_abi_names_no_interpreter(
    requested: Seq<Platform>,
    bridge: BridgeModel,
    opts: Options,
    sdist: bool,
)
    requires
        bridge.spec_is_abi3(),
    ensures
        forall|i: int, k: int|
            0 <= i < pipeline_model(requested, bridge, opts, sdist).jobs.len() && 0 <= k
                < pipeline_model(requested, bridge, opts, sdist).jobs[i].steps.len() && (
            #[trigger] pipeline_model(requested, bridge, opts, sdist).jobs[i].steps[k]) is Build
                ==> pipeline_model(requested, bridge, opts, sdist).jobs[i].steps[k]->interpreter
                == Interpreter::Unspecified,
{
    let m = pipeline_model(requested, bridge, opts, sdist);
    let ps = job_platforms(requested, bridge.spec_is_bin());
    assert forall|i: int, k: int|
        0 <= i < m.jobs.len() && 0 <= k < m.jobs[i].steps.len() && (
        #[trigger] m.jobs[i].steps[k]) is Build implies m.jobs[i].steps[k]->interpreter
        == Interpreter::Unspecified by {
        let p = ps[i];
        assert(m.jobs[i] == job_model(p, bridge, opts));
        let setup = setup_steps(p, bridge, opts);
        let s = m.jobs[i].steps;
        if k == 0 {
        } else if k < 1 + setup.len() {
            assert(s[k] == setup[k - 1]);
        } else if k == 1 + setup.len() {
            assert(s[k] == build_step(p, bridge, opts));
        } else if k == 2 + setup.len() {
        } else {
            assert(s[k] == test_steps(p, opts)[k - 3 - setup.len()]);
        }
    }
}

} // verus!
