//! Rendering the pipeline graph as a GitHub Actions workflow.
use vstd::prelude::*;
use vstd::string::*;

use crate::pipeline::{
    Artifact, BuildFlavor, Interpreter, Job, JobName, JobView, Pipeline, PipelineView, Release,
    ReleaseView, SdistJob, Step, TestRun,
};
use crate::platform::{platform_name, runner_label, target_label, MatrixEntry};
use crate::text;

verus! {

/// What the rendering needs besides the graph.
pub struct RenderContext {
    /// The name under which the tests install the package.
    pub project_name: String,
    /// The manifest's path, passed to builds that ask for it.
    pub manifest_path: String,
    /// The directory the tests run from, where it is not the checkout's root.
    pub test_dir: Option<String>,
}

pub struct ContextView {
    pub project_name: Seq<char>,
    pub manifest_path: Seq<char>,
    /// The command prefix that enters the test directory, or nothing.
    pub chdir: Seq<char>,
}

impl View for RenderContext {
    type V = ContextView;

    open spec fn view(&self) -> ContextView {
        ContextView {
            project_name: self.project_name@,
            manifest_path: self.manifest_path@,
            chdir: match self.test_dir {
                Some(d) => text::CD@ + d@ + text::AND_THEN@,
                None => seq![],
            },
        }
    }
}

pub open spec fn entry_text(e: MatrixEntry) -> Seq<char> {
    text::ENTRY_RUNNER@ + runner_label(e.runner) + text::ENTRY_TARGET@ + target_label(e.target) + text::NEWLINE@
}

pub open spec fn entries_text(m: Seq<MatrixEntry>) -> Seq<char>
    decreases m.len(),
{
    if m.len() == 0 {
        seq![]
    } else {
        entries_text(m.drop_last()) + entry_text(m.last())
    }
}

/// A job's matrix; a job without one has no strategy section.
pub open spec fn matrix_text(m: Seq<MatrixEntry>) -> Seq<char> {
    if m.len() == 0 {
        seq![]
    } else {
        text::STRATEGY@ + entries_text(m)
    }
}

pub open spec fn interpreter_text(i: Interpreter) -> Seq<char> {
    match i {
        Interpreter::Unspecified => seq![],
        Interpreter::FindInterpreter => text::ARG_FIND_INTERPRETER@,
        Interpreter::PyodideVersion => text::ARG_PYODIDE_INTERPRETER@,
    }
}

pub open spec fn manifest_text(manifest: bool, ctx: ContextView) -> Seq<char> {
    if manifest {
        text::ARG_MANIFEST@ + ctx.manifest_path
    } else {
        seq![]
    }
}

pub open spec fn flavor_text(f: BuildFlavor) -> Seq<char> {
    match f {
        BuildFlavor::Plain => seq![],
        BuildFlavor::Manylinux => text::FLAVOR_MANYLINUX@,
        BuildFlavor::Musllinux => text::FLAVOR_MUSLLINUX@,
        BuildFlavor::Nightly => text::FLAVOR_NIGHTLY@,
    }
}

/// The arguments of the build step beyond the fixed ones.
pub open spec fn build_args_text(
    interpreter: Interpreter,
    manifest: bool,
    zig: bool,
    ctx: ContextView,
) -> Seq<char> {
    interpreter_text(interpreter) + manifest_text(manifest, ctx) + if zig {
        text::ARG_ZIG@
    } else {
        seq![]
    }
}

pub open spec fn build_text(
    interpreter: Interpreter,
    manifest: bool,
    zig: bool,
    flavor: BuildFlavor,
    ctx: ContextView,
) -> Seq<char> {
    text::BUILD_HEAD@ + build_args_text(interpreter, manifest, zig, ctx) + text::BUILD_TAIL@
        + flavor_text(flavor)
}

pub open spec fn artifact_text(a: Artifact) -> Seq<char> {
    match a {
        Artifact::Wheels(p) => text::WHEELS_PREFIX@ + platform_name(p) + text::WHEELS_SUFFIX@,
        Artifact::WasmWheels => text::WASM_WHEELS@,
    }
}

/// A test step up to the package's name.
pub open spec fn test_head(run: TestRun) -> Seq<char> {
    match run {
        TestRun::GnuHost => text::TEST_GNU_HOST@,
        TestRun::GnuEmulated => text::TEST_GNU_EMULATED@,
        TestRun::MuslContainer => text::TEST_MUSL_CONTAINER@,
        TestRun::MuslEmulated => text::TEST_MUSL_EMULATED@,
        TestRun::WindowsHost => text::TEST_WINDOWS_HOST@,
        TestRun::MacosHost => text::TEST_MACOS_HOST@,
        TestRun::Pyodide => text::TEST_PYODIDE@,
    }
}

/// A test step between the package's name and the test directory.
pub open spec fn test_middle(run: TestRun) -> Seq<char> {
    match run {
        TestRun::GnuEmulated | TestRun::MuslEmulated => text::INSTALL_THEN_TEST_EMULATED@,
        TestRun::MuslContainer => text::INSTALL_THEN_TEST_CONTAINER@,
        _ => text::INSTALL_THEN_TEST@,
    }
}

/// The command that runs the tests.
pub open spec fn test_tail(run: TestRun) -> Seq<char> {
    match run {
        TestRun::Pyodide => text::RUN_PYTEST_MODULE@,
        _ => text::RUN_PYTEST@,
    }
}

pub open spec fn step_text(s: Step, ctx: ContextView) -> Seq<char> {
    match s {
        Step::Checkout => text::CHECKOUT@,
        Step::InstallPyodideBuild => text::PIP_PYODIDE_BUILD@,
        Step::PyodideVersions => text::PYODIDE_VERSIONS@,
        Step::SetupEmsdk => text::SETUP_EMSDK@,
        Step::SetupPyodidePython => text::SETUP_PYODIDE_PYTHON@,
        Step::SetupPython { pin_arch } => text::SETUP_PYTHON@ + if pin_arch {
            text::PIN_ARCH@
        } else {
            seq![]
        },
        Step::Build { interpreter, manifest, zig, flavor } => build_text(
            interpreter,
            manifest,
            zig,
            flavor,
            ctx,
        ),
        Step::Upload(a) => text::UPLOAD_HEAD@ + artifact_text(a) + text::UPLOAD_TAIL@,
        Step::SetupNode => text::SETUP_NODE@,
        Step::Pytest(run) => test_head(run) + ctx.project_name + test_middle(run) + ctx.chdir
            + test_tail(run),
    }
}

pub open spec fn steps_text(steps: Seq<Step>, ctx: ContextView) -> Seq<char>
    decreases steps.len(),
{
    if steps.len() == 0 {
        seq![]
    } else {
        steps_text(steps.drop_last(), ctx) + step_text(steps.last(), ctx)
    }
}

/// A platform job, with the blank line that ends it.
pub open spec fn job_text(j: JobView, ctx: ContextView) -> Seq<char> {
    text::JOB_INDENT@ + platform_name(j.platform) + text::JOB_RUNS_ON@ + matrix_text(j.matrix) + text::STEPS@
        + steps_text(j.steps, ctx) + text::NEWLINE@
}

pub open spec fn jobs_text(jobs: Seq<JobView>, ctx: ContextView) -> Seq<char>
    decreases jobs.len(),
{
    if jobs.len() == 0 {
        seq![]
    } else {
        jobs_text(jobs.drop_last(), ctx) + job_text(jobs.last(), ctx)
    }
}

pub open spec fn sdist_text(sdist: Option<SdistJob>, ctx: ContextView) -> Seq<char> {
    match sdist {
        Some(s) => text::SDIST_HEAD@ + manifest_text(s.manifest, ctx) + text::SDIST_TAIL@,
        None => seq![],
    }
}

pub open spec fn job_name_text(n: JobName) -> Seq<char> {
    match n {
        JobName::Platform(p) => platform_name(p),
        JobName::Sdist => text::SDIST_NAME@,
    }
}

/// The job names, separated by commas.
pub open spec fn needs_text(needs: Seq<JobName>) -> Seq<char>
    decreases needs.len(),
{
    if needs.len() == 0 {
        seq![]
    } else if needs.len() == 1 {
        job_name_text(needs[0])
    } else {
        needs_text(needs.drop_last()) + text::NEEDS_SEPARATOR@ + job_name_text(needs.last())
    }
}

/// Words separated by commas.
pub open spec fn comma_list(words: Seq<Seq<char>>) -> Seq<char>
    decreases words.len(),
{
    if words.len() == 0 {
        seq![]
    } else if words.len() == 1 {
        words[0]
    } else {
        comma_list(words.drop_last()) + text::NEEDS_SEPARATOR@ + words.last()
    }
}

/// The rendered list of job names is the names, separated by commas.
pub proof fn needs_text_lists_names(needs: Seq<JobName>)
    ensures
        needs_text(needs) == comma_list(needs.map_values(|n: JobName| job_name_text(n))),
    decreases needs.len(),
{
    let f = |n: JobName| job_name_text(n);
    if needs.len() > 1 {
        needs_text_lists_names(needs.drop_last());
        assert(needs.drop_last().map_values(f) =~= needs.map_values(f).drop_last());
    }
}

/// The release job after its list of needs.
pub open spec fn release_tail(r: ReleaseView) -> Seq<char> {
    text::NEEDS_END@ + (if r.upload_wasm {
        text::RELEASE_PERMISSIONS@
    } else {
        seq![]
    }) + text::RELEASE_STEPS@ + if r.upload_wasm {
        text::RELEASE_WASM_UPLOAD@
    } else {
        seq![]
    }
}

pub open spec fn release_text(r: ReleaseView) -> Seq<char> {
    text::RELEASE_HEAD@ + needs_text(r.needs) + release_tail(r)
}

/// The workflow, after its header comment.
pub open spec fn github_text(p: PipelineView, ctx: ContextView) -> Seq<char> {
    text::WORKFLOW_HEAD@ + jobs_text(p.jobs, ctx) + sdist_text(p.sdist, ctx) + release_text(p.release)
}

/// The comment that opens a generated file: the tool's version and the
/// command that regenerates the file.
pub open spec fn header_text(version: Seq<char>, command: Seq<char>) -> Seq<char> {
    text::HEADER_TOOL@ + version + text::HEADER_UPDATE@ + command + text::HEADER_END@
}

proof fn lemma_entries_step(m: Seq<MatrixEntry>, i: int)
    requires
        0 <= i < m.len(),
    ensures
        entries_text(m.take(i + 1)) == entries_text(m.take(i)) + entry_text(m[i]),
{
    assert(m.take(i + 1).drop_last() =~= m.take(i));
}

proof fn lemma_steps_step(s: Seq<Step>, ctx: ContextView, i: int)
    requires
        0 <= i < s.len(),
    ensures
        steps_text(s.take(i + 1), ctx) == steps_text(s.take(i), ctx) + step_text(s[i], ctx),
{
    assert(s.take(i + 1).drop_last() =~= s.take(i));
}

proof fn lemma_jobs_step(s: Seq<JobView>, ctx: ContextView, i: int)
    requires
        0 <= i < s.len(),
    ensures
        jobs_text(s.take(i + 1), ctx) == jobs_text(s.take(i), ctx) + job_text(s[i], ctx),
{
    assert(s.take(i + 1).drop_last() =~= s.take(i));
}

proof fn lemma_needs_step(s: Seq<JobName>, i: int)
    requires
        0 <= i < s.len(),
    ensures
        needs_text(s.take(i + 1)) == if i == 0 {
            job_name_text(s[0])
        } else {
            needs_text(s.take(i)) + text::NEEDS_SEPARATOR@ + job_name_text(s[i])
        },
{
    assert(s.take(i + 1).drop_last() =~= s.take(i));
    if i == 0 {
        assert(s.take(1)[0] == s[0]);
    }
}

fn push_matrix(out: &mut String, m: &Vec<MatrixEntry>)
    ensures
        final(out)@ == old(out)@ + matrix_text(m@),
{
    if m.len() == 0 {
        assert(final(out)@ =~= old(out)@ + matrix_text(m@));
        return ;
    }
    out.append(text::STRATEGY);
    let ghost start = out@;
    let mut i: usize = 0;
    while i < m.len()
        invariant
            i <= m@.len(),
            out@ == start + entries_text(m@.take(i as int)),
        decreases m@.len() - i,
    {
        let e = m[i];
        out.append(text::ENTRY_RUNNER);
        out.append(e.runner.label());
        out.append(text::ENTRY_TARGET);
        out.append(e.target.label());
        out.append(text::NEWLINE);
        proof {
            lemma_entries_step(m@, i as int);
        }
        i = i + 1;
        assert(out@ =~= start + entries_text(m@.take(i as int)));
    }
    assert(m@.take(i as int) =~= m@);
    assert(final(out)@ =~= old(out)@ + matrix_text(m@));
}

fn test_head_str(run: TestRun) -> (r: &'static str)
    ensures
        r@ == test_head(run),
{
    match run {
        TestRun::GnuHost => text::TEST_GNU_HOST,
        TestRun::GnuEmulated => text::TEST_GNU_EMULATED,
        TestRun::MuslContainer => text::TEST_MUSL_CONTAINER,
        TestRun::MuslEmulated => text::TEST_MUSL_EMULATED,
        TestRun::WindowsHost => text::TEST_WINDOWS_HOST,
        TestRun::MacosHost => text::TEST_MACOS_HOST,
        TestRun::Pyodide => text::TEST_PYODIDE,
    }
}

fn test_middle_str(run: TestRun) -> (r: &'static str)
    ensures
        r@ == test_middle(run),
{
    match run {
        TestRun::GnuEmulated | TestRun::MuslEmulated => text::INSTALL_THEN_TEST_EMULATED,
        TestRun::MuslContainer => text::INSTALL_THEN_TEST_CONTAINER,
        _ => text::INSTALL_THEN_TEST,
    }
}

fn test_tail_str(run: TestRun) -> (r: &'static str)
    ensures
        r@ == test_tail(run),
{
    match run {
        TestRun::Pyodide => text::RUN_PYTEST_MODULE,
        _ => text::RUN_PYTEST,
    }
}

fn push_manifest(out: &mut String, manifest: bool, ctx: &RenderContext)
    ensures
        final(out)@ == old(out)@ + manifest_text(manifest, ctx@),
{
    if manifest {
        out.append(text::ARG_MANIFEST);
        out.append(ctx.manifest_path.as_str());
    }
    assert(final(out)@ =~= old(out)@ + manifest_text(manifest, ctx@));
}

fn push_build_args(
    out: &mut String,
    interpreter: Interpreter,
    manifest: bool,
    zig: bool,
    ctx: &RenderContext,
)
    ensures
        final(out)@ == old(out)@ + build_args_text(interpreter, manifest, zig, ctx@),
{
    let ghost start = out@;
    match interpreter {
        Interpreter::Unspecified => {},
        Interpreter::FindInterpreter => out.append(text::ARG_FIND_INTERPRETER),
        Interpreter::PyodideVersion => out.append(text::ARG_PYODIDE_INTERPRETER),
    }
    assert(out@ =~= start + interpreter_text(interpreter));
    push_manifest(out, manifest, ctx);
    if zig {
        out.append(text::ARG_ZIG);
    }
    assert(out@ =~= start + build_args_text(interpreter, manifest, zig, ctx@));
}

fn push_build(
    out: &mut String,
    interpreter: Interpreter,
    manifest: bool,
    zig: bool,
    flavor: BuildFlavor,
    ctx: &RenderContext,
)
    ensures
        final(out)@ == old(out)@ + build_text(interpreter, manifest, zig, flavor, ctx@),
{
    let ghost start = out@;
    out.append(text::BUILD_HEAD);
    push_build_args(out, interpreter, manifest, zig, ctx);
    out.append(text::BUILD_TAIL);
    let ghost before_flavor = out@;
    match flavor {
        BuildFlavor::Plain => {},
        BuildFlavor::Manylinux => out.append(text::FLAVOR_MANYLINUX),
        BuildFlavor::Musllinux => out.append(text::FLAVOR_MUSLLINUX),
        BuildFlavor::Nightly => out.append(text::FLAVOR_NIGHTLY),
    }
    assert(out@ =~= before_flavor + flavor_text(flavor));
    assert(out@ =~= start + build_text(interpreter, manifest, zig, flavor, ctx@));
}

fn push_upload(out: &mut String, a: Artifact)
    ensures
        final(out)@ == old(out)@ + text::UPLOAD_HEAD@ + artifact_text(a) + text::UPLOAD_TAIL@,
{
    let ghost start = out@;
    out.append(text::UPLOAD_HEAD);
    match a {
        Artifact::Wheels(p) => {
            out.append(text::WHEELS_PREFIX);
            out.append(p.name());
            out.append(text::WHEELS_SUFFIX);
        },
        Artifact::WasmWheels => out.append(text::WASM_WHEELS),
    }
    out.append(text::UPLOAD_TAIL);
    assert(out@ =~= start + text::UPLOAD_HEAD@ + artifact_text(a) + text::UPLOAD_TAIL@);
}

fn push_pytest(out: &mut String, run: TestRun, ctx: &RenderContext)
    ensures
        final(out)@ == old(out)@ + test_head(run) + ctx@.project_name + test_middle(run)
            + ctx@.chdir + test_tail(run),
{
    let ghost start = out@;
    out.append(test_head_str(run));
    out.append(ctx.project_name.as_str());
    out.append(test_middle_str(run));
    match &ctx.test_dir {
        Some(d) => {
            out.append(text::CD);
            out.append(d.as_str());
            out.append(text::AND_THEN);
        },
        None => {},
    }
    out.append(test_tail_str(run));
    assert(out@ =~= start + test_head(run) + ctx@.project_name + test_middle(run) + ctx@.chdir
        + test_tail(run));
}

fn push_step(out: &mut String, s: Step, ctx: &RenderContext)
    ensures
        final(out)@ == old(out)@ + step_text(s, ctx@),
{
    let ghost start = out@;
    match s {
        Step::Checkout => out.append(text::CHECKOUT),
        Step::InstallPyodideBuild => out.append(text::PIP_PYODIDE_BUILD),
        Step::PyodideVersions => out.append(text::PYODIDE_VERSIONS),
        Step::SetupEmsdk => out.append(text::SETUP_EMSDK),
        Step::SetupPyodidePython => out.append(text::SETUP_PYODIDE_PYTHON),
        Step::SetupPython { pin_arch } => {
            out.append(text::SETUP_PYTHON);
            if pin_arch {
                out.append(text::PIN_ARCH);
            }
            assert(out@ =~= start + step_text(s, ctx@));
        },
        Step::Build { interpreter, manifest, zig, flavor } => {
            push_build(out, interpreter, manifest, zig, flavor, ctx);
        },
        Step::Upload(a) => {
            push_upload(out, a);
            assert(out@ =~= start + step_text(s, ctx@));
        },
        Step::SetupNode => out.append(text::SETUP_NODE),
        Step::Pytest(run) => {
            push_pytest(out, run, ctx);
            assert(out@ =~= start + step_text(s, ctx@));
        },
    }
}

fn push_job(out: &mut String, job: &Job, ctx: &RenderContext)
    ensures
        final(out)@ == old(out)@ + job_text(job@, ctx@),
{
    let ghost start = out@;
    out.append(text::JOB_INDENT);
    out.append(job.platform.name());
    out.append(text::JOB_RUNS_ON);
    push_matrix(out, &job.matrix);
    out.append(text::STEPS);
    let ghost mid = out@;
    let mut i: usize = 0;
    while i < job.steps.len()
        invariant
            i <= job.steps@.len(),
            out@ == mid + steps_text(job.steps@.take(i as int), ctx@),
        decreases job.steps@.len() - i,
    {
        push_step(out, job.steps[i], ctx);
        proof {
            lemma_steps_step(job.steps@, ctx@, i as int);
        }
        i = i + 1;
        assert(out@ =~= mid + steps_text(job.steps@.take(i as int), ctx@));
    }
    assert(job.steps@.take(i as int) =~= job.steps@);
    out.append(text::NEWLINE);
    assert(out@ =~= start + job_text(job@, ctx@));
}

fn push_release(out: &mut String, r: &Release)
    ensures
        final(out)@ == old(out)@ + release_text(r@),
{
    let ghost start = out@;
    out.append(text::RELEASE_HEAD);
    let ghost mid = out@;
    let mut i: usize = 0;
    while i < r.needs.len()
        invariant
            i <= r.needs@.len(),
            out@ == mid + needs_text(r.needs@.take(i as int)),
        decreases r.needs@.len() - i,
    {
        if i > 0 {
            out.append(text::NEEDS_SEPARATOR);
        }
        match r.needs[i] {
            JobName::Platform(p) => out.append(p.name()),
            JobName::Sdist => out.append(text::SDIST_NAME),
        }
        proof {
            lemma_needs_step(r.needs@, i as int);
        }
        i = i + 1;
        assert(out@ =~= mid + needs_text(r.needs@.take(i as int)));
    }
    assert(r.needs@.take(i as int) =~= r.needs@);
    out.append(text::NEEDS_END);
    if r.upload_wasm {
        out.append(text::RELEASE_PERMISSIONS);
    }
    out.append(text::RELEASE_STEPS);
    if r.upload_wasm {
        out.append(text::RELEASE_WASM_UPLOAD);
    }
    assert(out@ =~= start + release_text(r@));
}

/// The GitHub Actions workflow for a pipeline graph, after its header.
pub fn render_github(p: &Pipeline, ctx: &RenderContext) -> (r: String)
    ensures
        r@ == github_text(p@, ctx@),
{
    let mut out = String::from_str(text::WORKFLOW_HEAD);
    let ghost mid = out@;
    let mut i: usize = 0;
    while i < p.jobs.len()
        invariant
            i <= p.jobs@.len(),
            p@.jobs == p.jobs@.map_values(|j: Job| j@),
            out@ == mid + jobs_text(p@.jobs.take(i as int), ctx@),
        decreases p.jobs@.len() - i,
    {
        push_job(&mut out, &p.jobs[i], ctx);
        proof {
            lemma_jobs_step(p@.jobs, ctx@, i as int);
            assert(p@.jobs[i as int] == p.jobs@[i as int]@);
        }
        i = i + 1;
        assert(out@ =~= mid + jobs_text(p@.jobs.take(i as int), ctx@));
    }
    assert(p@.jobs.take(i as int) =~= p@.jobs);
    let ghost after_jobs = out@;
    match p.sdist {
        Some(s) => {
            out.append(text::SDIST_HEAD);
            push_manifest(&mut out, s.manifest, ctx);
            out.append(text::SDIST_TAIL);
        },
        None => {},
    }
    assert(out@ =~= after_jobs + sdist_text(p@.sdist, ctx@));
    push_release(&mut out, &p.release);
    assert(out@ =~= github_text(p@, ctx@));
    out
}

} // verus!
