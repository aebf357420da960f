//! The fixed fragments of text that the rendered workflows are made of.
use vstd::prelude::*;

verus! {

pub const HEADER_TOOL: &'static str = "# This file is autogenerated by maturin v";
pub const HEADER_UPDATE: &'static str = "\n# To update, run\n#\n#    ";
pub const HEADER_END: &'static str = "\n#\n";
pub const WORKFLOW_HEAD: &'static str = "name: CI\n\non:\n  push:\n    branches:\n      - main\n      - master\n    tags:\n      - '*'\n  pull_request:\n  workflow_dispatch:\n\npermissions:\n  contents: read\n\njobs:\n";
pub const JOB_INDENT: &'static str = "  ";
pub const JOB_RUNS_ON: &'static str = ":\n    runs-on: ${{ matrix.platform.runner }}\n";
pub const STRATEGY: &'static str = "    strategy:\n      matrix:\n        platform:\n";
pub const ENTRY_RUNNER: &'static str = "          - runner: ";
pub const ENTRY_TARGET: &'static str = "\n            target: ";
pub const NEWLINE: &'static str = "\n";
pub const STEPS: &'static str = "    steps:\n";
pub const CHECKOUT: &'static str = "      - uses: actions/checkout@v4\n";
pub const PIP_PYODIDE_BUILD: &'static str = "      - run: pip install pyodide-build\n";
pub const PYODIDE_VERSIONS: &'static str = "      - name: Get Emscripten and Python version info\n        shell: bash\n        run: |\n          echo EMSCRIPTEN_VERSION=$(pyodide config get emscripten_version) >> $GITHUB_ENV\n          echo PYTHON_VERSION=$(pyodide config get python_version | cut -d '.' -f 1-2) >> $GITHUB_ENV\n          pip uninstall -y pyodide-build\n";
pub const SETUP_EMSDK: &'static str = "      - uses: mymindstorm/setup-emsdk@v12\n        with:\n          version: ${{ env.EMSCRIPTEN_VERSION }}\n          actions-cache-folder: emsdk-cache\n";
pub const SETUP_PYODIDE_PYTHON: &'static str = "      - uses: actions/setup-python@v5\n        with:\n          python-version: ${{ env.PYTHON_VERSION }}\n";
pub const SETUP_PYTHON: &'static str = "      - uses: actions/setup-python@v5\n        with:\n          python-version: 3.x\n";
pub const PIN_ARCH: &'static str = "          architecture: ${{ matrix.platform.target }}\n";
pub const BUILD_HEAD: &'static str = "      - name: Build wheels\n        uses: PyO3/maturin-action@v1\n        with:\n          target: ${{ matrix.platform.target }}\n          args: --release --out dist";
pub const ARG_FIND_INTERPRETER: &'static str = " --find-interpreter";
pub const ARG_PYODIDE_INTERPRETER: &'static str = " -i ${{ env.PYTHON_VERSION }}";
pub const ARG_MANIFEST: &'static str = " --manifest-path ";
pub const ARG_ZIG: &'static str = " --zig";
pub const BUILD_TAIL: &'static str = "\n          sccache: 'true'\n";
pub const FLAVOR_MANYLINUX: &'static str = "          manylinux: auto\n";
pub const FLAVOR_MUSLLINUX: &'static str = "          manylinux: musllinux_1_2\n";
pub const FLAVOR_NIGHTLY: &'static str = "          rust-toolchain: nightly\n";
pub const UPLOAD_HEAD: &'static str = "      - name: Upload wheels\n        uses: actions/upload-artifact@v4\n        with:\n          name: ";
pub const WHEELS_PREFIX: &'static str = "wheels-";
pub const WHEELS_SUFFIX: &'static str = "-${{ matrix.platform.target }}";
pub const WASM_WHEELS: &'static str = "wasm-wheels";
pub const UPLOAD_TAIL: &'static str = "\n          path: dist\n";
pub const SETUP_NODE: &'static str = "      - uses: actions/setup-node@v3\n        with:\n          node-version: '18'\n";
pub const TEST_GNU_HOST: &'static str = "      - name: pytest\n        if: ${{ startsWith(matrix.platform.target, 'x86_64') }}\n        shell: bash\n        run: |\n          set -e\n          python3 -m venv .venv\n          source .venv/bin/activate\n          pip install ";
pub const TEST_GNU_EMULATED: &'static str = "      - name: pytest\n        if: ${{ !startsWith(matrix.platform.target, 'x86') && matrix.platform.target != 'ppc64' }}\n        uses: uraimo/run-on-arch-action@v2\n        with:\n          arch: ${{ matrix.platform.target }}\n          distro: ubuntu22.04\n          githubToken: ${{ github.token }}\n          install: |\n            apt-get update\n            apt-get install -y --no-install-recommends python3 python3-pip\n            pip3 install -U pip pytest\n          run: |\n            set -e\n            pip3 install ";
pub const TEST_MUSL_CONTAINER: &'static str = "      - name: pytest\n        if: ${{ startsWith(matrix.platform.target, 'x86_64') }}\n        uses: addnab/docker-run-action@v3\n        with:\n          image: alpine:latest\n          options: -v ${{ github.workspace }}:/io -w /io\n          run: |\n            set -e\n            apk add py3-pip py3-virtualenv\n            python3 -m virtualenv .venv\n            source .venv/bin/activate\n            pip install ";
pub const TEST_MUSL_EMULATED: &'static str = "      - name: pytest\n        if: ${{ !startsWith(matrix.platform.target, 'x86') }}\n        uses: uraimo/run-on-arch-action@v2\n        with:\n          arch: ${{ matrix.platform.target }}\n          distro: alpine_latest\n          githubToken: ${{ github.token }}\n          install: |\n            apk add py3-virtualenv\n          run: |\n            set -e\n            python3 -m virtualenv .venv\n            source .venv/bin/activate\n            pip install pytest\n            pip install ";
pub const TEST_WINDOWS_HOST: &'static str = "      - name: pytest\n        if: ${{ !startsWith(matrix.platform.target, 'aarch64') }}\n        shell: bash\n        run: |\n          set -e\n          python3 -m venv .venv\n          source .venv/Scripts/activate\n          pip install ";
pub const TEST_MACOS_HOST: &'static str = "      - name: pytest\n        run: |\n          set -e\n          python3 -m venv .venv\n          source .venv/bin/activate\n          pip install ";
pub const TEST_PYODIDE: &'static str = "      - name: pytest\n        run: |\n          set -e\n          pyodide venv .venv\n          source .venv/bin/activate\n          pip install ";
pub const INSTALL_THEN_TEST: &'static str = " --find-links dist --force-reinstall\n          pip install pytest\n          ";
pub const INSTALL_THEN_TEST_EMULATED: &'static str = " --find-links dist --force-reinstall\n            ";
pub const INSTALL_THEN_TEST_CONTAINER: &'static str = " --no-index --find-links dist --force-reinstall\n            pip install pytest\n            ";
pub const RUN_PYTEST: &'static str = "pytest\n";
pub const RUN_PYTEST_MODULE: &'static str = "python -m pytest\n";
pub const CD: &'static str = "cd ";
pub const AND_THEN: &'static str = " && ";
pub const SDIST_HEAD: &'static str = "  sdist:\n    runs-on: ubuntu-latest\n    steps:\n      - uses: actions/checkout@v4\n      - name: Build sdist\n        uses: PyO3/maturin-action@v1\n        with:\n          command: sdist\n          args: --out dist";
pub const SDIST_TAIL: &'static str = "\n      - name: Upload sdist\n        uses: actions/upload-artifact@v4\n        with:\n          name: wheels-sdist\n          path: dist\n\n";
pub const RELEASE_HEAD: &'static str = "  release:\n    name: Release\n    runs-on: ubuntu-latest\n    if: \"startsWith(github.ref, 'refs/tags/')\"\n    needs: [";
pub const NEEDS_SEPARATOR: &'static str = ", ";
pub const SDIST_NAME: &'static str = "sdist";
pub const NEEDS_END: &'static str = "]\n";
pub const RELEASE_PERMISSIONS: &'static str = "    permissions:\n      # Used to upload release artifacts\n      contents: write\n";
pub const RELEASE_STEPS: &'static str = "    steps:\n      - uses: actions/download-artifact@v4\n      - name: Publish to PyPI\n        uses: PyO3/maturin-action@v1\n        env:\n          MATURIN_PYPI_TOKEN: ${{ secrets.PYPI_API_TOKEN }}\n        with:\n          command: upload\n          args: --non-interactive --skip-existing wheels-*/*\n";
pub const RELEASE_WASM_UPLOAD: &'static str = "      - name: Upload to GitHub Release\n        uses: softprops/action-gh-release@v1\n        with:\n          files: |\n            wasm-wheels/*.whl\n          prerelease: ${{ contains(github.ref, 'alpha') || contains(github.ref, 'beta') }}\n";
pub const GITLAB_PIPELINE: &'static str = "default:\n  interruptible: true\n  cache:\n    paths:\n      - .cache/pip\n      - .cargo/bin\n      - .cargo/registry/index\n      - .cargo/registry/cache\n      - target/debug/deps\n      - target/debug/build\n\nvariables:\n    CARGO_HOME: '$CI_PROJECT_DIR/.cargo'\n    PIP_CACHE_DIR: '$CI_PROJECT_DIR/.cache/pip'\n\nstages: \n  - test\n  - build\n  - release\n\ntest:\n  stage: test\n  image: \n    name: ghcr.io/pyo3/maturin:latest\n    entrypoint: ['']\n  parallel:\n    matrix:\n      - PYTHON_VERSION:\n        - python3.8\n        - python3.9\n        - python3.10\n        - python3.11\n        - python3.12\n  before_script:\n    - $PYTHON_VERSION -m venv venv\n    - source venv/bin/activate\n    - maturin develop\n    - pip install pytest\n  script:\n    - pytest\n\nbuild-linux:\n  needs: ['test']\n  stage: build\n  image: \n    name: ghcr.io/pyo3/maturin:latest\n    entrypoint: ['']\n  parallel:\n    matrix:\n      # tier 1 targets, see https://doc.rust-lang.org/beta/rustc/platform-support.html\n      - TARGET:\n        - x86_64-unknown-linux-gnu\n        - x86_64-unknown-linux-musl\n        - aarch64-unknown-linux-gnu\n        - aarch64-unknown-linux-musl\n        - i686-unknown-linux-gnu\n  before_script:\n    - python3.8 -m venv venv\n    - source venv/bin/activate\n    - pip install ziglang\n    - rustup target add $TARGET\n  script:\n    - maturin build -i python3.8 -i python3.9 -i python3.10 -i python3.11 -i python3.12 --release --target $TARGET --zig\n  artifacts:\n    paths:\n      - target/wheels/*.whl\n\nbuild-macos:\n  needs: ['test']\n  stage: build\n  image: \n    name: ghcr.io/pyo3/maturin:latest\n    entrypoint: ['']\n  parallel:\n    matrix:\n      - TARGET:\n        - x86_64-apple-darwin\n  before_script:\n    - python3.8 -m venv venv\n    - source venv/bin/activate\n    - pip install ziglang\n    - rustup target add $TARGET\n  script:\n    - maturin build -i python3.8 -i python3.9 -i python3.10 -i python3.11 -i python3.12 --release --target $TARGET --zig\n  artifacts:\n    paths:\n      - target/wheels/*.whl\n\nbuild-windows:\n  needs: ['test']\n  stage: build\n  image: \n    name: ghcr.io/pyo3/maturin:latest\n    entrypoint: ['']\n  parallel:\n    matrix:\n      - TARGET:\n        - x86_64-pc-windows-msvc\n  before_script:\n    - python3.8 -m venv venv\n    - source venv/bin/activate\n    - pip install ziglang\n    - rustup target add $TARGET\n    # required for windows support\n    - cargo add pyo3 -F generate-import-lib\n    - export ZIG_COMMAND='python -m ziglang'\n  script:\n    - maturin build -i python3.8 -i python3.9 -i python3.10 -i python3.11 -i python3.12 --release --target $TARGET\n  artifacts:\n    paths:\n      - target/wheels/*.whl\n  \npublish:\n  stage: release\n  image: \n    name: ghcr.io/pyo3/maturin:latest\n    entrypoint: ['']\n  needs: ['build-linux', 'build-macos', 'build-windows', 'test']\n  rules:\n    - if: $CI_COMMIT_TAG\n    - if: $CI_COMMIT_BRANCH == $CI_DEFAULT_BRANCH\n    - if: $CI_PIPELINE_SOURCE == 'push'\n      when: manual\n      allow_failure: true\n  script:\n    - maturin publish --non-interactive --skip-existing";

} // verus!
