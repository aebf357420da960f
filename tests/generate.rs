use generate_ci::bridge::BridgeModel;
use generate_ci::ci::{GenerateCI, Invocation};

/// The generated text without its five-line header comment.
fn after_header(conf: &str) -> String {
    conf.lines().skip(5).collect::<Vec<_>>().join("\n")
}

/// Expected YAML, written line by line at a nesting depth of two spaces a level.
#[derive(Default)]
struct Yaml {
    lines: Vec<String>,
}

impl Yaml {
    fn at(&mut self, depth: usize, text: &str) -> &mut Self {
        self.lines.push(format!("{}{}", "  ".repeat(depth), text));
        self
    }

    fn blank(&mut self) -> &mut Self {
        self.lines.push(String::new());
        self
    }

    fn text(&self) -> String {
        self.lines.join("\n")
    }
}

const MATRIX_TARGET: &str = "${{ matrix.platform.target }}";

fn workflow_top(y: &mut Yaml) {
    y.at(0, "name: CI").blank().at(0, "on:");
    y.at(1, "push:").at(2, "branches:").at(3, "- main").at(3, "- master");
    y.at(2, "tags:").at(3, "- '*'");
    y.at(1, "pull_request:").at(1, "workflow_dispatch:").blank();
    y.at(0, "permissions:").at(1, "contents: read").blank();
    y.at(0, "jobs:");
}

fn job_top(y: &mut Yaml, name: &str, runner: &str, targets: &[&str]) {
    y.at(1, &format!("{name}:"));
    y.at(2, "runs-on: ${{ matrix.platform.runner }}");
    y.at(2, "strategy:").at(3, "matrix:").at(4, "platform:");
    for t in targets {
        let host = if runner.is_empty() {
            if *t == "x86_64" { "macos-12" } else { "macos-14" }
        } else {
            runner
        };
        y.at(5, &format!("- runner: {host}")).at(6, &format!("target: {t}"));
    }
    y.at(2, "steps:");
    y.at(3, "- uses: actions/checkout@v4");
}

fn setup_python(y: &mut Yaml, pin_arch: bool) {
    y.at(3, "- uses: actions/setup-python@v5").at(4, "with:").at(5, "python-version: 3.x");
    if pin_arch {
        y.at(5, &format!("architecture: {MATRIX_TARGET}"));
    }
}

fn build(y: &mut Yaml, args: &str, setting: Option<&str>) {
    y.at(3, "- name: Build wheels").at(4, "uses: PyO3/maturin-action@v1").at(4, "with:");
    y.at(5, &format!("target: {MATRIX_TARGET}"));
    y.at(5, &format!("args: --release --out dist{args}"));
    y.at(5, "sccache: 'true'");
    if let Some(s) = setting {
        y.at(5, s);
    }
}

fn upload(y: &mut Yaml, platform: &str) {
    y.at(3, "- name: Upload wheels").at(4, "uses: actions/upload-artifact@v4").at(4, "with:");
    y.at(5, &format!("name: wheels-{platform}-{MATRIX_TARGET}")).at(5, "path: dist");
}

fn venv_test(y: &mut Yaml, guard: Option<&str>, scripts: &str) {
    y.at(3, "- name: pytest");
    if let Some(g) = guard {
        y.at(4, &format!("if: ${{{{ {g} }}}}")).at(4, "shell: bash");
    }
    y.at(4, "run: |").at(5, "set -e").at(5, "python3 -m venv .venv");
    y.at(5, &format!("source .venv/{scripts}/activate"));
    y.at(5, "pip install example --find-links dist --force-reinstall");
    y.at(5, "pip install pytest").at(5, "pytest");
}

fn emulated_test(y: &mut Yaml, guard: &str, distro: &str, install: &[&str], run: &[&str]) {
    y.at(3, "- name: pytest").at(4, &format!("if: ${{{{ {guard} }}}}"));
    y.at(4, "uses: uraimo/run-on-arch-action@v2").at(4, "with:");
    y.at(5, &format!("arch: {MATRIX_TARGET}")).at(5, &format!("distro: {distro}"));
    y.at(5, "githubToken: ${{ github.token }}").at(5, "install: |");
    for l in install {
        y.at(6, l);
    }
    y.at(5, "run: |");
    for l in run {
        y.at(6, l);
    }
}

fn container_test(y: &mut Yaml) {
    y.at(3, "- name: pytest").at(4, "if: ${{ startsWith(matrix.platform.target, 'x86_64') }}");
    y.at(4, "uses: addnab/docker-run-action@v3").at(4, "with:").at(5, "image: alpine:latest");
    y.at(5, "options: -v ${{ github.workspace }}:/io -w /io").at(5, "run: |");
    for l in [
        "set -e",
        "apk add py3-pip py3-virtualenv",
        "python3 -m virtualenv .venv",
        "source .venv/bin/activate",
        "pip install example --no-index --find-links dist --force-reinstall",
        "pip install pytest",
        "pytest",
    ] {
        y.at(6, l);
    }
}

fn sdist_job(y: &mut Yaml) {
    y.at(1, "sdist:").at(2, "runs-on: ubuntu-latest").at(2, "steps:");
    y.at(3, "- uses: actions/checkout@v4");
    y.at(3, "- name: Build sdist").at(4, "uses: PyO3/maturin-action@v1").at(4, "with:");
    y.at(5, "command: sdist").at(5, "args: --out dist");
    y.at(3, "- name: Upload sdist").at(4, "uses: actions/upload-artifact@v4").at(4, "with:");
    y.at(5, "name: wheels-sdist").at(5, "path: dist").blank();
}

fn release_job(y: &mut Yaml, needs: &str) {
    y.at(1, "release:").at(2, "name: Release").at(2, "runs-on: ubuntu-latest");
    y.at(2, "if: \"startsWith(github.ref, 'refs/tags/')\"");
    y.at(2, &format!("needs: [{needs}]"));
    y.at(2, "steps:").at(3, "- uses: actions/download-artifact@v4");
    y.at(3, "- name: Publish to PyPI").at(4, "uses: PyO3/maturin-action@v1").at(4, "env:");
    y.at(5, "MATURIN_PYPI_TOKEN: ${{ secrets.PYPI_API_TOKEN }}").at(4, "with:");
    y.at(5, "command: upload").at(5, "args: --non-interactive --skip-existing wheels-*/*");
}

const GNU: [&str; 6] = ["x86_64", "x86", "aarch64", "armv7", "s390x", "ppc64le"];
const MUSL: [&str; 3] = ["x86_64", "aarch64", "armv7"];

/// The four default platform jobs, each with setup, build and upload.
fn default_jobs(y: &mut Yaml, python: bool, args: &str) {
    for (name, runner, targets, setting) in [
        ("linux", "ubuntu-latest", &GNU[..], Some("manylinux: auto")),
        ("musllinux", "ubuntu-latest", &MUSL[..], Some("manylinux: musllinux_1_2")),
        ("windows", "windows-latest", &["x64", "x86"][..], None),
        ("macos", "", &["x86_64", "aarch64"][..], None),
    ] {
        job_top(y, name, runner, targets);
        if python {
            setup_python(y, name == "windows");
        }
        build(y, args, setting);
        upload(y, name);
        y.blank();
    }
}

#[test]
fn test_generate_github() {
    let generator = GenerateCI::default();
    let bridge = BridgeModel::Bindings("pyo3".to_string(), 7);
    let conf = after_header(&generator.generate_github("example", &bridge, true, &Invocation::default()));
    let mut y = Yaml::default();
    workflow_top(&mut y);
    default_jobs(&mut y, true, " --find-interpreter");
    sdist_job(&mut y);
    release_job(&mut y, "linux, musllinux, windows, macos, sdist");
    assert_eq!(conf, y.text());
}

#[test]
fn test_generate_github_abi3() {
    let generator = GenerateCI::default();
    let conf = after_header(&generator.generate_github(
        "example",
        &BridgeModel::BindingsAbi3(3, 7),
        false,
        &Invocation::default(),
    ));
    let mut y = Yaml::default();
    workflow_top(&mut y);
    default_jobs(&mut y, true, "");
    release_job(&mut y, "linux, musllinux, windows, macos");
    assert_eq!(conf, y.text());
}

#[test]
fn test_generate_github_zig_pytest() {
    let generator = GenerateCI { zig: true, pytest: true, ..Default::default() };
    let bridge = BridgeModel::Bindings("pyo3".to_string(), 7);
    let conf = after_header(&generator.generate_github("example", &bridge, true, &Invocation::default()));
    let mut y = Yaml::default();
    workflow_top(&mut y);

    job_top(&mut y, "linux", "ubuntu-latest", &GNU);
    setup_python(&mut y, false);
    build(&mut y, " --find-interpreter --zig", Some("manylinux: auto"));
    upload(&mut y, "linux");
    venv_test(&mut y, Some("startsWith(matrix.platform.target, 'x86_64')"), "bin");
    emulated_test(
        &mut y,
        "!startsWith(matrix.platform.target, 'x86') && matrix.platform.target != 'ppc64'",
        "ubuntu22.04",
        &[
            "apt-get update",
            "apt-get install -y --no-install-recommends python3 python3-pip",
            "pip3 install -U pip pytest",
        ],
        &["set -e", "pip3 install example --find-links dist --force-reinstall", "pytest"],
    );
    y.blank();

    job_top(&mut y, "musllinux", "ubuntu-latest", &MUSL);
    setup_python(&mut y, false);
    build(&mut y, " --find-interpreter", Some("manylinux: musllinux_1_2"));
    upload(&mut y, "musllinux");
    container_test(&mut y);
    emulated_test(
        &mut y,
        "!startsWith(matrix.platform.target, 'x86')",
        "alpine_latest",
        &["apk add py3-virtualenv"],
        &[
            "set -e",
            "python3 -m virtualenv .venv",
            "source .venv/bin/activate",
            "pip install pytest",
            "pip install example --find-links dist --force-reinstall",
            "pytest",
        ],
    );
    y.blank();

    job_top(&mut y, "windows", "windows-latest", &["x64", "x86"]);
    setup_python(&mut y, true);
    build(&mut y, " --find-interpreter", None);
    upload(&mut y, "windows");
    venv_test(&mut y, Some("!startsWith(matrix.platform.target, 'aarch64')"), "Scripts");
    y.blank();

    job_top(&mut y, "macos", "", &["x86_64", "aarch64"]);
    setup_python(&mut y, false);
    build(&mut y, " --find-interpreter", None);
    upload(&mut y, "macos");
    venv_test(&mut y, None, "bin");
    y.blank();

    sdist_job(&mut y);
    release_job(&mut y, "linux, musllinux, windows, macos, sdist");
    assert_eq!(conf, y.text());
}

#[test]
fn test_generate_github_bin_no_binding() {
    let generator = GenerateCI::default();
    let conf = after_header(&generator.generate_github(
        "example",
        &BridgeModel::Bin(None),
        true,
        &Invocation::default(),
    ));
    let mut y = Yaml::default();
    workflow_top(&mut y);
    default_jobs(&mut y, false, "");
    sdist_job(&mut y);
    release_job(&mut y, "linux, musllinux, windows, macos, sdist");
    assert_eq!(conf, y.text());
}

fn gitlab_build_job(y: &mut Yaml, name: &str, targets: &[&str], comment: bool, windows: bool) {
    y.at(0, &format!("build-{name}:")).at(1, "needs: ['test']").at(1, "stage: build");
    maturin_image(y);
    y.at(1, "parallel:").at(2, "matrix:");
    if comment {
        y.at(3, "# tier 1 targets, see https://doc.rust-lang.org/beta/rustc/platform-support.html");
    }
    y.at(3, "- TARGET:");
    for t in targets {
        y.at(4, &format!("- {t}"));
    }
    y.at(1, "before_script:").at(2, "- python3.8 -m venv venv").at(2, "- source venv/bin/activate");
    y.at(2, "- pip install ziglang").at(2, "- rustup target add $TARGET");
    if windows {
        y.at(2, "# required for windows support").at(2, "- cargo add pyo3 -F generate-import-lib");
        y.at(2, "- export ZIG_COMMAND='python -m ziglang'");
    }
    let interpreters: Vec<String> = PYTHONS.iter().map(|p| format!("-i {p}")).collect();
    let zig = if windows { "" } else { " --zig" };
    y.at(1, "script:").at(
        2,
        &format!("- maturin build {} --release --target $TARGET{zig}", interpreters.join(" ")),
    );
    y.at(1, "artifacts:").at(2, "paths:").at(3, "- target/wheels/*.whl");
}

const PYTHONS: [&str; 5] = ["python3.8", "python3.9", "python3.10", "python3.11", "python3.12"];

fn maturin_image(y: &mut Yaml) {
    y.at(1, "image: ").at(2, "name: ghcr.io/pyo3/maturin:latest").at(2, "entrypoint: ['']");
}

#[test]
fn test_generate_gitlab() {
    let generator = GenerateCI::default();
    let bridge = BridgeModel::Bindings("pyo3".to_string(), 7);
    let conf = after_header(&generator.generate_gitlab("example", &bridge, true, &Invocation::default()));
    let mut y = Yaml::default();
    y.at(0, "default:").at(1, "interruptible: true").at(1, "cache:").at(2, "paths:");
    for p in [
        ".cache/pip",
        ".cargo/bin",
        ".cargo/registry/index",
        ".cargo/registry/cache",
        "target/debug/deps",
        "target/debug/build",
    ] {
        y.at(3, &format!("- {p}"));
    }
    y.blank().at(0, "variables:");
    y.at(0, "    CARGO_HOME: '$CI_PROJECT_DIR/.cargo'");
    y.at(0, "    PIP_CACHE_DIR: '$CI_PROJECT_DIR/.cache/pip'").blank();
    y.at(0, "stages: ").at(1, "- test").at(1, "- build").at(1, "- release").blank();

    y.at(0, "test:").at(1, "stage: test");
    maturin_image(&mut y);
    y.at(1, "parallel:").at(2, "matrix:").at(3, "- PYTHON_VERSION:");
    for p in PYTHONS {
        y.at(4, &format!("- {p}"));
    }
    y.at(1, "before_script:").at(2, "- $PYTHON_VERSION -m venv venv");
    y.at(2, "- source venv/bin/activate").at(2, "- maturin develop").at(2, "- pip install pytest");
    y.at(1, "script:").at(2, "- pytest").blank();

    let linux = [
        "x86_64-unknown-linux-gnu",
        "x86_64-unknown-linux-musl",
        "aarch64-unknown-linux-gnu",
        "aarch64-unknown-linux-musl",
        "i686-unknown-linux-gnu",
    ];
    gitlab_build_job(&mut y, "linux", &linux, true, false);
    y.blank();
    gitlab_build_job(&mut y, "macos", &["x86_64-apple-darwin"], false, false);
    y.blank();
    gitlab_build_job(&mut y, "windows", &["x86_64-pc-windows-msvc"], false, true);
    y.at(1, "");

    y.at(0, "publish:").at(1, "stage: release");
    maturin_image(&mut y);
    y.at(1, "needs: ['build-linux', 'build-macos', 'build-windows', 'test']");
    y.at(1, "rules:").at(2, "- if: $CI_COMMIT_TAG");
    y.at(2, "- if: $CI_COMMIT_BRANCH == $CI_DEFAULT_BRANCH");
    y.at(2, "- if: $CI_PIPELINE_SOURCE == 'push'").at(3, "when: manual").at(3, "allow_failure: true");
    y.at(1, "script:").at(2, "- maturin publish --non-interactive --skip-existing");
    assert_eq!(conf, y.text());
}
