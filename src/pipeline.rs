//! The provider-neutral pipeline graph: which platforms get a job, what each
//! job's matrix and steps are, and what the release job waits for.
use vstd::prelude::*;

use crate::bridge::BridgeModel;
use crate::platform::{all_platforms, matrix, platform_matrix, MatrixEntry, Platform};

verus! {

/// The feature switches that shape the jobs.
#[derive(Clone, Copy, Debug, PartialEq, Eq, Structural)]
pub struct Options {
    /// Run the test suite against the built wheels.
    pub pytest: bool,
    /// Cross-compile the manylinux wheels with zig.
    pub zig: bool,
    /// The manifest is not `Cargo.toml` in the working directory.
    pub custom_manifest: bool,
}

/// How the build step chooses its Python interpreters.
#[derive(Clone, Copy, Debug, PartialEq, Eq, Structural)]
pub enum Interpreter {
    /// No interpreter argument.
    Unspecified,
    /// Build for every interpreter found on the host.
    FindInterpreter,
    /// Build for the Python version that Pyodide reported.
    PyodideVersion,
}

/// The platform-specific setting of the build step.
#[derive(Clone, Copy, Debug, PartialEq, Eq, Structural)]
pub enum BuildFlavor {
    Plain,
    /// The manylinux compatibility tag, chosen automatically.
    Manylinux,
    /// The musllinux_1_2 compatibility tag.
    Musllinux,
    /// A nightly Rust toolchain, which Emscripten builds need.
    Nightly,
}

/// Where and how the test suite runs against the built wheels.
#[derive(Clone, Copy, Debug, PartialEq, Eq, Structural)]
pub enum TestRun {
    /// On the glibc host, for x86_64 targets.
    GnuHost,
    /// Under emulation, for the other glibc targets but ppc64.
    GnuEmulated,
    /// In an Alpine container, for x86_64 targets.
    MuslContainer,
    /// Under Alpine emulation, for non-x86 musl targets.
    MuslEmulated,
    /// On the Windows host, but for aarch64.
    WindowsHost,
    /// On the macOS host.
    MacosHost,
    /// In a Pyodide virtual environment.
    Pyodide,
}

/// The name of an uploaded artifact.
#[derive(Clone, Copy, Debug, PartialEq, Eq, Structural)]
pub enum Artifact {
    /// `wheels-<platform>-<target>`, published to the package index.
    Wheels(Platform),
    /// The WebAssembly wheels, attached to the source-control release.
    WasmWheels,
}

/// One step of a platform job.
#[derive(Clone, Copy, Debug, PartialEq, Eq, Structural)]
pub enum Step {
    Checkout,
    /// Install the pyodide-build helper.
    InstallPyodideBuild,
    /// Ask pyodide-build for the Emscripten and Python versions it needs.
    PyodideVersions,
    /// Install the Emscripten SDK at the version reported.
    SetupEmsdk,
    /// Install Python at the version reported.
    SetupPyodidePython,
    /// Install a Python 3 interpreter, pinned to the target's architecture
    /// where `pin_arch` holds.
    SetupPython { pin_arch: bool },
    Build { interpreter: Interpreter, manifest: bool, zig: bool, flavor: BuildFlavor },
    Upload(Artifact),
    /// Install Node.js, which Pyodide runs on.
    SetupNode,
    Pytest(TestRun),
}

/// The name by which the release job refers to a job.
#[derive(Clone, Copy, Debug, PartialEq, Eq, Structural)]
pub enum JobName {
    Platform(Platform),
    Sdist,
}

/// The job that builds the source distribution.
#[derive(Clone, Copy, Debug, PartialEq, Eq, Structural)]
pub struct SdistJob {
    /// Pass the manifest's path to the build.
    pub manifest: bool,
}

/// The job that builds a platform's wheels.
#[derive(Debug)]
pub struct Job {
    pub platform: Platform,
    pub matrix: Vec<MatrixEntry>,
    pub steps: Vec<Step>,
}

pub struct JobView {
    pub platform: Platform,
    pub matrix: Seq<MatrixEntry>,
    pub steps: Seq<Step>,
}

impl View for Job {
    type V = JobView;

    open spec fn view(&self) -> JobView {
        JobView { platform: self.platform, matrix: self.matrix@, steps: self.steps@ }
    }
}

/// The terminal job that publishes what the other jobs built.
#[derive(Debug)]
pub struct Release {
    /// Every job before it, in the order they were emitted.
    pub needs: Vec<JobName>,
    /// Attach the WebAssembly wheels to the source-control release.
    pub upload_wasm: bool,
}

pub struct ReleaseView {
    pub needs: Seq<JobName>,
    pub upload_wasm: bool,
}

impl View for Release {
    type V = ReleaseView;

    open spec fn view(&self) -> ReleaseView {
        ReleaseView { needs: self.needs@, upload_wasm: self.upload_wasm }
    }
}

/// The whole graph: platform jobs, an optional sdist job, then the release.
#[derive(Debug)]
pub struct Pipeline {
    pub jobs: Vec<Job>,
    pub sdist: Option<SdistJob>,
    pub release: Release,
}

pub struct PipelineView {
    pub jobs: Seq<JobView>,
    pub sdist: Option<SdistJob>,
    pub release: ReleaseView,
}

impl View for Pipeline {
    type V = PipelineView;

    open spec fn view(&self) -> PipelineView {
        PipelineView {
            jobs: self.jobs@.map_values(|j: Job| j@),
            sdist: self.sdist,
            release: self.release@,
        }
    }
}

/// Whether a concrete platform is among those requested, with `All` standing
/// for every platform that suits the bridge model.
pub open spec fn selected(requested: Seq<Platform>, is_bin: bool, p: Platform) -> bool {
    &&& p != Platform::All
    &&& requested.contains(p) || (requested.contains(Platform::All) && (
    p != Platform::Emscripten || !is_bin))
}

/// The requested platforms with the wildcard expanded, without repeats, in
/// declaration order.
pub open spec fn expanded_platforms(requested: Seq<Platform>, is_bin: bool) -> Seq<Platform> {
    all_platforms().filter(|p: Platform| selected(requested, is_bin, p))
}

/// A binary cannot run in the browser: it gets no Emscripten job, even where
/// Emscripten is named.
pub open spec fn gets_job(is_bin: bool, p: Platform) -> bool {
    !(is_bin && p == Platform::Emscripten)
}

/// The platforms that get a job, in the order the jobs are emitted.
pub open spec fn job_platforms(requested: Seq<Platform>, is_bin: bool) -> Seq<Platform> {
    expanded_platforms(requested, is_bin).filter(|p: Platform| gets_job(is_bin, p))
}

proof fn lemma_filter_step<A>(s: Seq<A>, f: spec_fn(A) -> bool, i: int)
    requires
        0 <= i < s.len(),
    ensures
        s.take(i + 1).filter(f) == (if f(s[i]) {
            s.take(i).filter(f).push(s[i])
        } else {
            s.take(i).filter(f)
        }),
{
    reveal(Seq::filter);
    assert(s.take(i + 1).drop_last() =~= s.take(i));
}

fn contains_platform(ps: &Vec<Platform>, p: Platform) -> (r: bool)
    ensures
        r == ps@.contains(p),
{
    let mut i: usize = 0;
    while i < ps.len()
        invariant
            i <= ps@.len(),
            forall|j: int| 0 <= j < i ==> ps@[j] != p,
        decreases ps@.len() - i,
    {
        if ps[i] == p {
            return true;
        }
        i = i + 1;
    }
    false
}

/// The concrete platforms requested, with `All` expanded to every platform
/// that suits the bridge model, in declaration order and without repeats.
pub fn expand_platforms(requested: &Vec<Platform>, bridge: &BridgeModel) -> (r: Vec<Platform>)
    ensures
        r@ == expanded_platforms(requested@, bridge.is_bin()),
{
    let is_bin = bridge.is_bin();
    let has_all = contains_platform(requested, Platform::All);
    let cands = Platform::all();
    let ghost f = |p: Platform| selected(requested@, is_bin, p);
    let mut r: Vec<Platform> = Vec::new();
    let mut i: usize = 0;
    while i < cands.len()
        invariant
            i <= cands@.len(),
            cands@ == all_platforms(),
            has_all == requested@.contains(Platform::All),
            f == (|p: Platform| selected(requested@, is_bin, p)),
            r@ == cands@.take(i as int).filter(f),
        decreases cands@.len() - i,
    {
        let p = cands[i];
        proof {
            lemma_filter_step(cands@, f, i as int);
        }
        let keep = contains_platform(requested, p) || (has_all && (p != Platform::Emscripten
            || !is_bin));
        assert(keep == f(p));
        if keep {
            r.push(p);
        }
        i = i + 1;
    }
    assert(cands@.take(i as int) =~= cands@);
    r
}

/// The platforms that get a job, in the order the jobs are emitted.
pub fn platforms_with_jobs(requested: &Vec<Platform>, bridge: &BridgeModel) -> (r: Vec<Platform>)
    ensures
        r@ == job_platforms(requested@, bridge.is_bin()),
{
    let is_bin = bridge.is_bin();
    let cands = expand_platforms(requested, bridge);
    let ghost f = |p: Platform| gets_job(is_bin, p);
    let mut r: Vec<Platform> = Vec::new();
    let mut i: usize = 0;
    while i < cands.len()
        invariant
            i <= cands@.len(),
            f == (|p: Platform| gets_job(is_bin, p)),
            r@ == cands@.take(i as int).filter(f),
        decreases cands@.len() - i,
    {
        let p = cands[i];
        proof {
            lemma_filter_step(cands@, f, i as int);
        }
        if !(is_bin && p == Platform::Emscripten) {
            r.push(p);
        }
        i = i + 1;
    }
    assert(cands@.take(i as int) =~= cands@);
    r
}

/// Whether the jobs install a Python interpreter: to run the tests, or
/// because the build needs one.
pub open spec fn wants_python(bridge: BridgeModel, opts: Options) -> bool {
    opts.pytest || bridge.spec_needs_python()
}

/// The steps that prepare the toolchain, between checkout and build.
pub open spec fn setup_steps(p: Platform, bridge: BridgeModel, opts: Options) -> Seq<Step> {
    if p == Platform::Emscripten {
        seq![
            Step::InstallPyodideBuild,
            Step::PyodideVersions,
            Step::SetupEmsdk,
            Step::SetupPyodidePython,
            Step::InstallPyodideBuild,
        ]
    } else if wants_python(bridge, opts) {
        seq![Step::SetupPython { pin_arch: p == Platform::Windows }]
    } else {
        seq![]
    }
}

/// Which interpreters the build targets: none named for the stable ABI or for
/// a binary built without Python, else Pyodide's for Emscripten and every
/// one found elsewhere.
pub open spec fn interpreter_choice(p: Platform, bridge: BridgeModel, opts: Options) -> Interpreter {
    if bridge.spec_is_abi3() || (bridge.spec_is_bin() && !wants_python(bridge, opts)) {
        Interpreter::Unspecified
    } else if p == Platform::Emscripten {
        Interpreter::PyodideVersion
    } else {
        Interpreter::FindInterpreter
    }
}

pub open spec fn build_flavor(p: Platform) -> BuildFlavor {
    match p {
        Platform::ManyLinux => BuildFlavor::Manylinux,
        Platform::Musllinux => BuildFlavor::Musllinux,
        Platform::Emscripten => BuildFlavor::Nightly,
        _ => BuildFlavor::Plain,
    }
}

/// The build step; zig cross-compilation applies to manylinux alone.
pub open spec fn build_step(p: Platform, bridge: BridgeModel, opts: Options) -> Step {
    Step::Build {
        interpreter: interpreter_choice(p, bridge, opts),
        manifest: opts.custom_manifest,
        zig: opts.zig && p == Platform::ManyLinux,
        flavor: build_flavor(p),
    }
}

pub open spec fn artifact_of(p: Platform) -> Artifact {
    if p == Platform::Emscripten {
        Artifact::WasmWheels
    } else {
        Artifact::Wheels(p)
    }
}

/// The test steps of a platform, where the tests are run at all.
pub open spec fn test_steps(p: Platform, opts: Options) -> Seq<Step> {
    if !opts.pytest {
        seq![]
    } else {
        match p {
            Platform::All => seq![],
            Platform::ManyLinux => seq![Step::Pytest(TestRun::GnuHost), Step::Pytest(TestRun::GnuEmulated)],
            Platform::Musllinux => seq![
                Step::Pytest(TestRun::MuslContainer),
                Step::Pytest(TestRun::MuslEmulated),
            ],
            Platform::Windows => seq![Step::Pytest(TestRun::WindowsHost)],
            Platform::Macos => seq![Step::Pytest(TestRun::MacosHost)],
            Platform::Emscripten => seq![Step::SetupNode, Step::Pytest(TestRun::Pyodide)],
        }
    }
}

/// Every step of a platform's job, in order.
pub open spec fn job_steps(p: Platform, bridge: BridgeModel, opts: Options) -> Seq<Step> {
    seq![Step::Checkout] + setup_steps(p, bridge, opts) + seq![
        build_step(p, bridge, opts),
        Step::Upload(artifact_of(p)),
    ] + test_steps(p, opts)
}

/// The job of a platform.
pub open spec fn job_model(p: Platform, bridge: BridgeModel, opts: Options) -> JobView {
    JobView { platform: p, matrix: platform_matrix(p), steps: job_steps(p, bridge, opts) }
}

/// What the release job waits for: every platform job, then the sdist job.
pub open spec fn release_needs(platforms: Seq<Platform>, sdist: bool) -> Seq<JobName> {
    platforms.map_values(|p: Platform| JobName::Platform(p)) + if sdist {
        seq![JobName::Sdist]
    } else {
        seq![]
    }
}

/// The whole graph for a configuration.
pub open spec fn pipeline_model(
    requested: Seq<Platform>,
    bridge: BridgeModel,
    opts: Options,
    sdist: bool,
) -> PipelineView {
    let ps = job_platforms(requested, bridge.spec_is_bin());
    PipelineView {
        jobs: ps.map_values(|p: Platform| job_model(p, bridge, opts)),
        sdist: if sdist {
            Some(SdistJob { manifest: opts.custom_manifest })
        } else {
            None
        },
        release: ReleaseView {
            needs: release_needs(ps, sdist),
            upload_wasm: ps.contains(Platform::Emscripten),
        },
    }
}

fn push_setup_steps(steps: &mut Vec<Step>, p: Platform, bridge: &BridgeModel, opts: Options)
    ensures
        final(steps)@ == old(steps)@ + setup_steps(p, *bridge, opts),
{
    if p == Platform::Emscripten {
        steps.push(Step::InstallPyodideBuild);
        steps.push(Step::PyodideVersions);
        steps.push(Step::SetupEmsdk);
        steps.push(Step::SetupPyodidePython);
        steps.push(Step::InstallPyodideBuild);
    } else if opts.pytest || bridge.needs_python() {
        steps.push(Step::SetupPython { pin_arch: p == Platform::Windows });
    }
    assert(final(steps)@ =~= old(steps)@ + setup_steps(p, *bridge, opts));
}

fn push_test_steps(steps: &mut Vec<Step>, p: Platform, opts: Options)
    ensures
        final(steps)@ == old(steps)@ + test_steps(p, opts),
{
    if opts.pytest {
        match p {
            Platform::All => {},
            Platform::ManyLinux => {
                steps.push(Step::Pytest(TestRun::GnuHost));
                steps.push(Step::Pytest(TestRun::GnuEmulated));
            },
            Platform::Musllinux => {
                steps.push(Step::Pytest(TestRun::MuslContainer));
                steps.push(Step::Pytest(TestRun::MuslEmulated));
            },
            Platform::Windows => {
                steps.push(Step::Pytest(TestRun::WindowsHost));
            },
            Platform::Macos => {
                steps.push(Step::Pytest(TestRun::MacosHost));
            },
            Platform::Emscripten => {
                steps.push(Step::SetupNode);
                steps.push(Step::Pytest(TestRun::Pyodide));
            },
        }
    }
    assert(final(steps)@ =~= old(steps)@ + test_steps(p, opts));
}

/// The job that builds, uploads and optionally tests a platform's wheels.
pub fn build_job(platform: Platform, bridge: &BridgeModel, opts: Options) -> (r: Job)
    ensures
        r@ == job_model(platform, *bridge, opts),
{
    let mut steps: Vec<Step> = Vec::new();
    steps.push(Step::Checkout);
    push_setup_steps(&mut steps, platform, bridge, opts);
    let interpreter = if bridge.is_abi3() || (bridge.is_bin() && !(opts.pytest
        || bridge.needs_python())) {
        Interpreter::Unspecified
    } else if platform == Platform::Emscripten {
        Interpreter::PyodideVersion
    } else {
        Interpreter::FindInterpreter
    };
    let flavor = match platform {
        Platform::ManyLinux => BuildFlavor::Manylinux,
        Platform::Musllinux => BuildFlavor::Musllinux,
        Platform::Emscripten => BuildFlavor::Nightly,
        _ => BuildFlavor::Plain,
    };
    steps.push(
        Step::Build {
            interpreter,
            manifest: opts.custom_manifest,
            zig: opts.zig && platform == Platform::ManyLinux,
            flavor,
        },
    );
    let artifact = if platform == Platform::Emscripten {
        Artifact::WasmWheels
    } else {
        Artifact::Wheels(platform)
    };
    steps.push(Step::Upload(artifact));
    push_test_steps(&mut steps, platform, opts);
    let r = Job { platform, matrix: matrix(platform), steps };
    assert(r@.steps =~= job_steps(platform, *bridge, opts));
    r
}

/// The pipeline graph: a job per platform that gets one, in declaration
/// order, the sdist job if asked for, and the release job after them all.
pub fn build_pipeline(
    requested: &Vec<Platform>,
    bridge: &BridgeModel,
    opts: Options,
    sdist: bool,
) -> (r: Pipeline)
    ensures
        r@ == pipeline_model(requested@, *bridge, opts, sdist),
{
    let ps = platforms_with_jobs(requested, bridge);
    let mut jobs: Vec<Job> = Vec::new();
    let mut needs: Vec<JobName> = Vec::new();
    let mut upload_wasm = false;
    let mut i: usize = 0;
    while i < ps.len()
        invariant
            i <= ps@.len(),
            jobs@.len() == i,
            jobs@.map_values(|j: Job| j@) == ps@.take(i as int).map_values(
                |p: Platform| job_model(p, *bridge, opts),
            ),
            needs@ == ps@.take(i as int).map_values(|p: Platform| JobName::Platform(p)),
            upload_wasm == ps@.take(i as int).contains(Platform::Emscripten),
        decreases ps@.len() - i,
    {
        let p = ps[i];
        let job = build_job(p, bridge, opts);
        let ghost prev = jobs@;
        jobs.push(job);
        needs.push(JobName::Platform(p));
        if p == Platform::Emscripten {
            upload_wasm = true;
        }
        proof {
            let t = ps@.take(i as int);
            let t1 = ps@.take(i as int + 1);
            assert(t1 =~= t.push(p));
            assert(jobs@ == prev.push(job));
            assert forall|k: int| 0 <= k < i implies #[trigger] jobs@[k]@ == job_model(
                t1[k],
                *bridge,
                opts,
            ) by {
                assert(jobs@[k] == prev[k]);
                assert(prev.map_values(|j: Job| j@)[k] == prev[k]@);
                assert(t.map_values(|q: Platform| job_model(q, *bridge, opts))[k] == job_model(
                    t[k],
                    *bridge,
                    opts,
                ));
            }
            assert(jobs@.map_values(|j: Job| j@) =~= t1.map_values(
                |q: Platform| job_model(q, *bridge, opts),
            ));
            assert(needs@ =~= t1.map_values(|q: Platform| JobName::Platform(q)));
            if upload_wasm {
                if p == Platform::Emscripten {
                    assert(t1[i as int] == p);
                } else {
                    let k = choose|k: int| 0 <= k < t.len() && t[k] == Platform::Emscripten;
                    assert(t1[k] == Platform::Emscripten);
                }
            } else {
                assert forall|k: int| 0 <= k < t1.len() implies t1[k] != Platform::Emscripten by {
                    if k < i {
                        assert(t1[k] == t[k]);
                    }
                }
            }
        }
        i = i + 1;
    }
    assert(ps@.take(i as int) =~= ps@);
    let sdist_job = if sdist {
        needs.push(JobName::Sdist);
        Some(SdistJob { manifest: opts.custom_manifest })
    } else {
        None
    };
    assert(needs@ =~= release_needs(ps@, sdist));
    Pipeline { jobs, sdist: sdist_job, release: Release { needs, upload_wasm } }
}

} // verus!
