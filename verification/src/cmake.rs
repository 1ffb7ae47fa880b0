//! Build orchestration: the toolchain for a platform, the build directory
//! of a configuration, and the argument lists handed to CMake.

use vstd::prelude::*;
use vstd::string::*;
use crate::error::ErrorKind;
use crate::text::{join2, opt_text, same_text, texts};

verus! {

/// An operating system for which a toolchain is known.
#[derive(Clone, Copy, Debug, PartialEq, Eq, Structural)]
pub enum Os {
    Windows,
    Linux,
}

/// A target architecture.
#[derive(Clone, Copy, Debug, PartialEq, Eq, Structural)]
pub enum Architecture {
    X64,
    X86,
}

/// The CMake build type.
#[derive(Clone, Copy, Debug, PartialEq, Eq, Structural)]
pub enum BuildType {
    Debug,
    Release,
}

/// How libraries are linked. Accepted on the command line; the build
/// logic does not read it.
#[derive(Clone, Copy, Debug, PartialEq, Eq, Structural)]
pub enum LibraryType {
    Static,
    Shared,
}

/// What one run was asked to build.
#[derive(Clone, Debug, PartialEq, Eq)]
pub struct BuildConfig {
    pub architecture: Architecture,
    pub build_type: BuildType,
    pub library_type: LibraryType,
    pub program_name: Option<String>,
}

/// The generator and compilers used on one platform.
#[derive(Clone, Debug, PartialEq, Eq)]
pub struct Toolchain {
    pub generator: String,
    pub compiler_flag: String,
    pub c_compiler: String,
    pub cxx_compiler: String,
}

/// The commands of one run, ready to be spawned.
#[derive(Clone, Debug, PartialEq, Eq)]
pub struct BuildPlan {
    pub build_dir: String,
    pub configure_args: Vec<String>,
    pub build_args: Vec<String>,
    pub executable: Option<String>,
}

/// The operating system that a name such as `"windows"` stands for.
pub open spec fn spec_parse_os(name: Seq<char>) -> Option<Os> {
    if name == "windows"@ {
        Some(Os::Windows)
    } else if name == "linux"@ {
        Some(Os::Linux)
    } else {
        None
    }
}

/// The architecture that `"x64"` or `"x86"` stands for.
pub open spec fn spec_parse_architecture(name: Seq<char>) -> Option<Architecture> {
    if name == "x64"@ {
        Some(Architecture::X64)
    } else if name == "x86"@ {
        Some(Architecture::X86)
    } else {
        None
    }
}

/// The build type that a name stands for, in either capitalisation.
pub open spec fn spec_parse_build_type(name: Seq<char>) -> Option<BuildType> {
    if name == "debug"@ || name == "Debug"@ {
        Some(BuildType::Debug)
    } else if name == "release"@ || name == "Release"@ {
        Some(BuildType::Release)
    } else {
        None
    }
}

/// The library type that `"static"` or `"shared"` stands for.
pub open spec fn spec_parse_library_type(name: Seq<char>) -> Option<LibraryType> {
    if name == "static"@ {
        Some(LibraryType::Static)
    } else if name == "shared"@ {
        Some(LibraryType::Shared)
    } else {
        None
    }
}

impl Os {
    /// Reads the operating system's name as the platform reports it.
    pub fn parse(name: &str) -> (r: Option<Os>)
        ensures
            r == spec_parse_os(name@),
    {
        if same_text(name, "windows") {
            Some(Os::Windows)
        } else if same_text(name, "linux") {
            Some(Os::Linux)
        } else {
            None
        }
    }

    /// The suffix of executable files.
    pub open spec fn spec_exe_suffix(self) -> Seq<char> {
        match self {
            Os::Windows => ".exe"@,
            Os::Linux => ""@,
        }
    }

    /// The suffix of executable files on this system.
    pub fn exe_suffix(self) -> (r: &'static str)
        ensures
            r@ == self.spec_exe_suffix(),
    {
        match self {
            Os::Windows => ".exe",
            Os::Linux => "",
        }
    }
}

impl Architecture {
    /// Reads the value of the architecture flag.
    pub fn parse(name: &str) -> (r: Option<Architecture>)
        ensures
            r == spec_parse_architecture(name@),
    {
        if same_text(name, "x64") {
            Some(Architecture::X64)
        } else if same_text(name, "x86") {
            Some(Architecture::X86)
        } else {
            None
        }
    }

    /// The name used in flags and directory names.
    pub open spec fn spec_name(self) -> Seq<char> {
        match self {
            Architecture::X64 => "x64"@,
            Architecture::X86 => "x86"@,
        }
    }

    /// The name used in flags and directory names.
    pub fn name(self) -> (r: &'static str)
        ensures
            r@ == self.spec_name(),
    {
        match self {
            Architecture::X64 => "x64",
            Architecture::X86 => "x86",
        }
    }

    /// The compiler flag that selects the word size.
    pub open spec fn spec_flag(self) -> Seq<char> {
        match self {
            Architecture::X64 => "-m64"@,
            Architecture::X86 => "-m32"@,
        }
    }
}

impl BuildType {
    /// Reads the value of the build-type flag.
    pub fn parse(name: &str) -> (r: Option<BuildType>)
        ensures
            r == spec_parse_build_type(name@),
    {
        if same_text(name, "debug") || same_text(name, "Debug") {
            Some(BuildType::Debug)
        } else if same_text(name, "release") || same_text(name, "Release") {
            Some(BuildType::Release)
        } else {
            None
        }
    }

    /// The name CMake knows the build type by.
    pub open spec fn spec_name(self) -> Seq<char> {
        match self {
            BuildType::Debug => "Debug"@,
            BuildType::Release => "Release"@,
        }
    }

    /// The name CMake knows the build type by.
    pub fn name(self) -> (r: &'static str)
        ensures
            r@ == self.spec_name(),
    {
        match self {
            BuildType::Debug => "Debug",
            BuildType::Release => "Release",
        }
    }
}

impl LibraryType {
    /// Reads the value of the library-type flag.
    pub fn parse(name: &str) -> (r: Option<LibraryType>)
        ensures
            r == spec_parse_library_type(name@),
    {
        if same_text(name, "static") {
            Some(LibraryType::Static)
        } else if same_text(name, "shared") {
            Some(LibraryType::Shared)
        } else {
            None
        }
    }
}

/// The generator CMake is told to emit for.
pub open spec fn spec_generator(os: Os) -> Seq<char> {
    match os {
        Os::Windows => "MinGW Makefiles"@,
        Os::Linux => "Unix Makefiles"@,
    }
}

/// The C compiler's executable.
pub open spec fn spec_c_compiler(os: Os, arch: Architecture) -> Seq<char> {
    match (os, arch) {
        (Os::Windows, Architecture::X64) => "x86_64-w64-mingw32-gcc.exe"@,
        (Os::Windows, Architecture::X86) => "i686-w64-mingw32-gcc.exe"@,
        (Os::Linux, _) => "gcc"@,
    }
}

/// The C++ compiler's executable.
pub open spec fn spec_cxx_compiler(os: Os, arch: Architecture) -> Seq<char> {
    match (os, arch) {
        (Os::Windows, Architecture::X64) => "x86_64-w64-mingw32-g++.exe"@,
        (Os::Windows, Architecture::X86) => "i686-w64-mingw32-g++.exe"@,
        (Os::Linux, _) => "g++"@,
    }
}

/// What a `Toolchain` holds, as character sequences.
pub struct ToolchainView {
    pub generator: Seq<char>,
    pub compiler_flag: Seq<char>,
    pub c_compiler: Seq<char>,
    pub cxx_compiler: Seq<char>,
}

impl View for Toolchain {
    type V = ToolchainView;

    open spec fn view(&self) -> ToolchainView {
        ToolchainView {
            generator: self.generator@,
            compiler_flag: self.compiler_flag@,
            c_compiler: self.c_compiler@,
            cxx_compiler: self.cxx_compiler@,
        }
    }
}

impl ToolchainView {
    /// Whether every part of the toolchain is named.
    pub open spec fn is_complete(self) -> bool {
        &&& self.generator.len() > 0
        &&& self.compiler_flag.len() > 0
        &&& self.c_compiler.len() > 0
        &&& self.cxx_compiler.len() > 0
    }
}

/// The toolchain of a platform.
pub open spec fn spec_toolchain(os: Os, arch: Architecture) -> ToolchainView {
    ToolchainView {
        generator: spec_generator(os),
        compiler_flag: arch.spec_flag(),
        c_compiler: spec_c_compiler(os, arch),
        cxx_compiler: spec_cxx_compiler(os, arch),
    }
}

/// The toolchain of a pair of platform names, or `UnsupportedPlatform`
/// where either name is unknown.
pub open spec fn spec_select_toolchain(os_name: Seq<char>, arch_name: Seq<char>) -> Result<
    ToolchainView,
    ErrorKind,
> {
    match (spec_parse_os(os_name), spec_parse_architecture(arch_name)) {
        (Some(os), Some(arch)) => Ok(spec_toolchain(os, arch)),
        _ => Err(ErrorKind::UnsupportedPlatform),
    }
}

/// Every platform's toolchain names all four of its parts.
pub proof fn lemma_toolchain_complete(os: Os, arch: Architecture)
    ensures
        spec_toolchain(os, arch).is_complete(),
{
    reveal_strlit("MinGW Makefiles");
    reveal_strlit("Unix Makefiles");
    reveal_strlit("-m64");
    reveal_strlit("-m32");
    reveal_strlit("x86_64-w64-mingw32-gcc.exe");
    reveal_strlit("i686-w64-mingw32-gcc.exe");
    reveal_strlit("gcc");
    reveal_strlit("x86_64-w64-mingw32-g++.exe");
    reveal_strlit("i686-w64-mingw32-g++.exe");
    reveal_strlit("g++");
}

/// A pair of platform names has a toolchain exactly if both names are
/// known, and that toolchain names all four of its parts.
pub proof fn lemma_select_toolchain(os_name: Seq<char>, arch_name: Seq<char>)
    ensures
        spec_select_toolchain(os_name, arch_name) is Ok <==> spec_supported(os_name, arch_name),
        spec_select_toolchain(os_name, arch_name) is Ok ==> spec_select_toolchain(
            os_name,
            arch_name,
        )->Ok_0.is_complete(),
        spec_select_toolchain(os_name, arch_name) is Err ==> spec_select_toolchain(
            os_name,
            arch_name,
        )->Err_0 == ErrorKind::UnsupportedPlatform,
{
    match (spec_parse_os(os_name), spec_parse_architecture(arch_name)) {
        (Some(os), Some(arch)) => {
            lemma_toolchain_complete(os, arch);
        },
        _ => {},
    }
}

/// The toolchain of a supported platform.
pub fn toolchain(os: Os, arch: Architecture) -> (r: Toolchain)
    ensures
        r@ == spec_toolchain(os, arch),
        r@.is_complete(),
{
    let generator = match os {
        Os::Windows => String::from_str("MinGW Makefiles"),
        Os::Linux => String::from_str("Unix Makefiles"),
    };
    let compiler_flag = match arch {
        Architecture::X64 => String::from_str("-m64"),
        Architecture::X86 => String::from_str("-m32"),
    };
    let c_compiler = match (os, arch) {
        (Os::Windows, Architecture::X64) => String::from_str("x86_64-w64-mingw32-gcc.exe"),
        (Os::Windows, Architecture::X86) => String::from_str("i686-w64-mingw32-gcc.exe"),
        (Os::Linux, _) => String::from_str("gcc"),
    };
    let cxx_compiler = match (os, arch) {
        (Os::Windows, Architecture::X64) => String::from_str("x86_64-w64-mingw32-g++.exe"),
        (Os::Windows, Architecture::X86) => String::from_str("i686-w64-mingw32-g++.exe"),
        (Os::Linux, _) => String::from_str("g++"),
    };
    proof {
        lemma_toolchain_complete(os, arch);
    }
    Toolchain { generator, compiler_flag, c_compiler, cxx_compiler }
}

/// Whether a pair of platform names has a toolchain.
pub open spec fn spec_supported(os_name: Seq<char>, arch_name: Seq<char>) -> bool {
    spec_parse_os(os_name) is Some && spec_parse_architecture(arch_name) is Some
}

/// The view of the result of selecting a toolchain.
pub open spec fn toolchain_result_view(r: Result<Toolchain, ErrorKind>) -> Result<
    ToolchainView,
    ErrorKind,
> {
    match r {
        Ok(t) => Ok(t@),
        Err(e) => Err(e),
    }
}

/// The toolchain for an operating system and an architecture given by
/// name, or `UnsupportedPlatform` where either name is unknown.
pub fn select_toolchain(os_name: &str, arch_name: &str) -> (r: Result<Toolchain, ErrorKind>)
    ensures
        toolchain_result_view(r) == spec_select_toolchain(os_name@, arch_name@),
        r is Ok <==> spec_supported(os_name@, arch_name@),
        r is Ok ==> r->Ok_0@.is_complete(),
{
    match (Os::parse(os_name), Architecture::parse(arch_name)) {
        (Some(os), Some(arch)) => Ok(toolchain(os, arch)),
        _ => Err(ErrorKind::UnsupportedPlatform),
    }
}

/// The build directory of a configuration: `build/<type>-<arch>`.
pub open spec fn spec_build_dir(build_type: BuildType, arch: Architecture) -> Seq<char> {
    "build/"@ + build_type.spec_name() + "-"@ + arch.spec_name()
}

/// The directory in which a configuration is built. The same
/// configuration always gets the same directory.
pub fn build_dir(build_type: BuildType, arch: Architecture) -> (r: String)
    ensures
        r@ == spec_build_dir(build_type, arch),
{
    let mut out = String::from_str("build/");
    out.append(build_type.name());
    out.append("-");
    out.append(arch.name());
    out
}

/// Two configurations share a build directory only if they agree in
/// build type and architecture.
pub proof fn lemma_build_dir_injective(
    t1: BuildType,
    a1: Architecture,
    t2: BuildType,
    a2: Architecture,
)
    ensures
        spec_build_dir(t1, a1) == spec_build_dir(t2, a2) <==> (t1 == t2 && a1 == a2),
{
    reveal_strlit("build/");
    reveal_strlit("Debug");
    reveal_strlit("Release");
    reveal_strlit("-");
    reveal_strlit("x64");
    reveal_strlit("x86");
    let d1 = spec_build_dir(t1, a1);
    let d2 = spec_build_dir(t2, a2);
    assert(d1.len() == 6 + t1.spec_name().len() + 1 + 3);
    assert(d2.len() == 6 + t2.spec_name().len() + 1 + 3);
    if t1 != t2 {
        assert(d1.len() != d2.len());
    } else if a1 != a2 {
        let k = d1.len() - 2;
        assert(d1[k] == a1.spec_name()[1]);
        assert(d2[k] == a2.spec_name()[1]);
        assert(d1[k] != d2[k]);
    }
}

/// The arguments of the configure call, in the order CMake receives them.
pub open spec fn spec_configure_args(
    os: Os,
    arch: Architecture,
    build_type: BuildType,
) -> Seq<Seq<char>> {
    seq![
        "-B"@,
        spec_build_dir(build_type, arch),
        "-S"@,
        "."@,
        "-G"@,
        spec_generator(os),
        "-DCMAKE_EXPORT_COMPILE_COMMANDS=ON"@,
        "-DCMAKE_BUILD_TYPE="@ + build_type.spec_name(),
        "-DCMAKE_C_FLAGS="@ + arch.spec_flag(),
        "-DCMAKE_CXX_FLAGS="@ + arch.spec_flag(),
        "-DEXECUTABLE_OUTPUT_PATH=bin"@,
        "-DLIBRARY_OUTPUT_PATH=bin"@,
        "-DCMAKE_C_COMPILER="@ + spec_c_compiler(os, arch),
        "-DCMAKE_CXX_COMPILER="@ + spec_cxx_compiler(os, arch),
    ]
}

/// The arguments of the build call.
pub open spec fn spec_build_args(arch: Architecture, build_type: BuildType) -> Seq<Seq<char>> {
    seq!["--build"@, spec_build_dir(build_type, arch)]
}

/// Where the built program is expected.
pub open spec fn spec_executable_path(
    os: Os,
    arch: Architecture,
    build_type: BuildType,
    program: Seq<char>,
) -> Seq<char> {
    spec_build_dir(build_type, arch) + "/bin/"@ + program + os.spec_exe_suffix()
}

/// The arguments with which CMake configures the build directory:
/// generator, export of compile commands, build type, compiler flags,
/// output paths and compilers.
pub fn configure_args(os: Os, arch: Architecture, build_type: BuildType) -> (r: Vec<String>)
    ensures
        texts(r@) == spec_configure_args(os, arch, build_type),
{
    let t = toolchain(os, arch);
    let mut args: Vec<String> = Vec::new();
    args.push(String::from_str("-B"));
    args.push(build_dir(build_type, arch));
    args.push(String::from_str("-S"));
    args.push(String::from_str("."));
    args.push(String::from_str("-G"));
    args.push(t.generator.clone());
    args.push(String::from_str("-DCMAKE_EXPORT_COMPILE_COMMANDS=ON"));
    args.push(join2("-DCMAKE_BUILD_TYPE=", build_type.name()));
    args.push(join2("-DCMAKE_C_FLAGS=", t.compiler_flag.as_str()));
    args.push(join2("-DCMAKE_CXX_FLAGS=", t.compiler_flag.as_str()));
    args.push(String::from_str("-DEXECUTABLE_OUTPUT_PATH=bin"));
    args.push(String::from_str("-DLIBRARY_OUTPUT_PATH=bin"));
    args.push(join2("-DCMAKE_C_COMPILER=", t.c_compiler.as_str()));
    args.push(join2("-DCMAKE_CXX_COMPILER=", t.cxx_compiler.as_str()));
    assert(texts(args@) =~= spec_configure_args(os, arch, build_type));
    args
}

/// The arguments with which CMake builds the configured directory.
pub fn build_args(arch: Architecture, build_type: BuildType) -> (r: Vec<String>)
    ensures
        texts(r@) == spec_build_args(arch, build_type),
{
    let mut args: Vec<String> = Vec::new();
    args.push(String::from_str("--build"));
    args.push(build_dir(build_type, arch));
    assert(texts(args@) =~= spec_build_args(arch, build_type));
    args
}

/// The path of the built program under the build directory's `bin`.
pub fn executable_path(os: Os, arch: Architecture, build_type: BuildType, program: &str) -> (r:
    String)
    ensures
        r@ == spec_executable_path(os, arch, build_type, program@),
{
    let mut out = build_dir(build_type, arch);
    out.append("/bin/");
    out.append(program);
    out.append(os.exe_suffix());
    out
}

/// The name the program goes by when none was given: the last component
/// of the working directory, or `root` where the directory has none.
pub open spec fn spec_dir_name(last_component: Option<Seq<char>>) -> Seq<char> {
    match last_component {
        Some(name) => name,
        None => "root"@,
    }
}

/// The default program name, from the last component of the working
/// directory (`None` at the root of the file system).
pub fn get_current_dir_name(last_component: Option<&str>) -> (r: String)
    ensures
        r@ == spec_dir_name(
            match last_component {
                Some(s) => Some(s@),
                None => None,
            },
        ),
{
    match last_component {
        Some(name) => String::from_str(name),
        None => String::from_str("root"),
    }
}

/// What a `BuildConfig` holds, with the program name as characters.
pub struct BuildConfigView {
    pub architecture: Architecture,
    pub build_type: BuildType,
    pub library_type: LibraryType,
    pub program_name: Option<Seq<char>>,
}

impl View for BuildConfig {
    type V = BuildConfigView;

    open spec fn view(&self) -> BuildConfigView {
        BuildConfigView {
            architecture: self.architecture,
            build_type: self.build_type,
            library_type: self.library_type,
            program_name: match self.program_name {
                Some(name) => Some(name@),
                None => None,
            },
        }
    }
}

/// What a `BuildPlan` holds, as character sequences.
pub struct BuildPlanView {
    pub build_dir: Seq<char>,
    pub configure_args: Seq<Seq<char>>,
    pub build_args: Seq<Seq<char>>,
    pub executable: Option<Seq<char>>,
}

impl View for BuildPlan {
    type V = BuildPlanView;

    open spec fn view(&self) -> BuildPlanView {
        BuildPlanView {
            build_dir: self.build_dir@,
            configure_args: texts(self.configure_args@),
            build_args: texts(self.build_args@),
            executable: match self.executable {
                Some(path) => Some(path@),
                None => None,
            },
        }
    }
}

/// The plan of a configuration on an operating system. The library type
/// has no part in it.
pub open spec fn spec_plan(os: Os, config: BuildConfigView) -> BuildPlanView {
    BuildPlanView {
        build_dir: spec_build_dir(config.build_type, config.architecture),
        configure_args: spec_configure_args(os, config.architecture, config.build_type),
        build_args: spec_build_args(config.architecture, config.build_type),
        executable: match config.program_name {
            Some(name) => Some(
                spec_executable_path(os, config.architecture, config.build_type, name),
            ),
            None => None,
        },
    }
}

/// The plan of a run on the operating system of that name, or
/// `UnsupportedPlatform` where the name is unknown.
pub open spec fn spec_run(os_name: Seq<char>, config: BuildConfigView) -> Result<
    BuildPlanView,
    ErrorKind,
> {
    match spec_parse_os(os_name) {
        Some(os) => Ok(spec_plan(os, config)),
        None => Err(ErrorKind::UnsupportedPlatform),
    }
}

/// The view of the result of planning a run.
pub open spec fn plan_result_view(r: Result<BuildPlan, ErrorKind>) -> Result<
    BuildPlanView,
    ErrorKind,
> {
    match r {
        Ok(plan) => Ok(plan@),
        Err(e) => Err(e),
    }
}

/// Plans one run: the build directory, the configure and build calls and,
/// where a program name was given, the executable to launch afterwards.
/// An operating system without a toolchain is refused with
/// `UnsupportedPlatform`, before anything is spawned.
pub fn run(os_name: &str, config: &BuildConfig) -> (r: Result<BuildPlan, ErrorKind>)
    ensures
        plan_result_view(r) == spec_run(os_name@, config@),
{
    match Os::parse(os_name) {
        None => Err(ErrorKind::UnsupportedPlatform),
        Some(os) => {
            let executable = match &config.program_name {
                Some(name) => Some(
                    executable_path(os, config.architecture, config.build_type, name.as_str()),
                ),
                None => None,
            };
            Ok(
                BuildPlan {
                    build_dir: build_dir(config.build_type, config.architecture),
                    configure_args: configure_args(os, config.architecture, config.build_type),
                    build_args: build_args(config.architecture, config.build_type),
                    executable,
                },
            )
        },
    }
}

/// The configuration that the values of the command line's flags stand
/// for, or the reason they are refused: an unknown architecture is an
/// unsupported platform, an unknown build or library type a bad input.
pub open spec fn spec_from_flags(
    architecture: Seq<char>,
    build_type: Seq<char>,
    library_type: Seq<char>,
    program_name: Option<Seq<char>>,
) -> Result<BuildConfigView, ErrorKind> {
    match spec_parse_architecture(architecture) {
        None => Err(ErrorKind::UnsupportedPlatform),
        Some(a) => match (spec_parse_build_type(build_type), spec_parse_library_type(library_type)) {
            (Some(b), Some(l)) => Ok(
                BuildConfigView {
                    architecture: a,
                    build_type: b,
                    library_type: l,
                    program_name,
                },
            ),
            _ => Err(ErrorKind::Input),
        },
    }
}

/// The view of the result of reading the flags.
pub open spec fn config_result_view(r: Result<BuildConfig, ErrorKind>) -> Result<
    BuildConfigView,
    ErrorKind,
> {
    match r {
        Ok(config) => Ok(config@),
        Err(e) => Err(e),
    }
}

impl BuildConfig {
    /// Builds the configuration of a run from the values of the flags.
    pub fn from_flags(
        architecture: &str,
        build_type: &str,
        library_type: &str,
        program_name: Option<String>,
    ) -> (r: Result<BuildConfig, ErrorKind>)
        ensures
            config_result_view(r) == spec_from_flags(
                architecture@,
                build_type@,
                library_type@,
                opt_text(program_name),
            ),
    {
        match Architecture::parse(architecture) {
            None => Err(ErrorKind::UnsupportedPlatform),
            Some(a) => match (BuildType::parse(build_type), LibraryType::parse(library_type)) {
                (Some(b), Some(l)) => Ok(
                    BuildConfig {
                        architecture: a,
                        build_type: b,
                        library_type: l,
                        program_name,
                    },
                ),
                _ => Err(ErrorKind::Input),
            },
        }
    }
}

} // verus!
