use toolchain_bootstrap::cmake::{
    build_args, build_dir, configure_args, executable_path, get_current_dir_name, run,
    select_toolchain, toolchain, Architecture, BuildConfig, BuildType, LibraryType, Os,
};
use toolchain_bootstrap::error::ErrorKind;

fn strings(items: &[&str]) -> Vec<String> {
    items.iter().map(|s| s.to_string()).collect()
}

#[test]
fn toolchain_windows_x64() {
    let t = toolchain(Os::Windows, Architecture::X64);
    assert_eq!(t.generator, "MinGW Makefiles");
    assert_eq!(t.compiler_flag, "-m64");
    assert_eq!(t.c_compiler, "x86_64-w64-mingw32-gcc.exe");
    assert_eq!(t.cxx_compiler, "x86_64-w64-mingw32-g++.exe");
}

#[test]
fn toolchain_windows_x86() {
    let t = toolchain(Os::Windows, Architecture::X86);
    assert_eq!(t.generator, "MinGW Makefiles");
    assert_eq!(t.compiler_flag, "-m32");
    assert_eq!(t.c_compiler, "i686-w64-mingw32-gcc.exe");
    assert_eq!(t.cxx_compiler, "i686-w64-mingw32-g++.exe");
}

#[test]
fn toolchain_linux_both_architectures() {
    let a = toolchain(Os::Linux, Architecture::X64);
    assert_eq!(a.generator, "Unix Makefiles");
    assert_eq!(a.compiler_flag, "-m64");
    assert_eq!(a.c_compiler, "gcc");
    assert_eq!(a.cxx_compiler, "g++");
    let b = toolchain(Os::Linux, Architecture::X86);
    assert_eq!(b.generator, "Unix Makefiles");
    assert_eq!(b.compiler_flag, "-m32");
    assert_eq!(b.c_compiler, "gcc");
    assert_eq!(b.cxx_compiler, "g++");
}

#[test]
fn every_supported_pair_has_a_complete_stable_toolchain() {
    for os in ["windows", "linux"] {
        for arch in ["x64", "x86"] {
            let first = select_toolchain(os, arch).unwrap();
            let second = select_toolchain(os, arch).unwrap();
            assert_eq!(first, second);
            assert!(!first.generator.is_empty());
            assert!(!first.compiler_flag.is_empty());
            assert!(!first.c_compiler.is_empty());
            assert!(!first.cxx_compiler.is_empty());
        }
    }
}

#[test]
fn unsupported_pairs_are_rejected() {
    assert_eq!(select_toolchain("macos", "x64"), Err(ErrorKind::UnsupportedPlatform));
    assert_eq!(select_toolchain("windows", "arm64"), Err(ErrorKind::UnsupportedPlatform));
    assert_eq!(select_toolchain("", ""), Err(ErrorKind::UnsupportedPlatform));
    assert_eq!(select_toolchain("Windows", "x64"), Err(ErrorKind::UnsupportedPlatform));
    assert_eq!(select_toolchain("linux", "X64"), Err(ErrorKind::UnsupportedPlatform));
}

#[test]
fn parsing_of_flag_values() {
    assert_eq!(Os::parse("windows"), Some(Os::Windows));
    assert_eq!(Os::parse("linux"), Some(Os::Linux));
    assert_eq!(Os::parse("freebsd"), None);
    assert_eq!(Architecture::parse("x64"), Some(Architecture::X64));
    assert_eq!(Architecture::parse("x86"), Some(Architecture::X86));
    assert_eq!(Architecture::parse("x32"), None);
    assert_eq!(BuildType::parse("debug"), Some(BuildType::Debug));
    assert_eq!(BuildType::parse("Debug"), Some(BuildType::Debug));
    assert_eq!(BuildType::parse("release"), Some(BuildType::Release));
    assert_eq!(BuildType::parse("Release"), Some(BuildType::Release));
    assert_eq!(BuildType::parse("RELEASE"), None);
    assert_eq!(LibraryType::parse("static"), Some(LibraryType::Static));
    assert_eq!(LibraryType::parse("shared"), Some(LibraryType::Shared));
    assert_eq!(LibraryType::parse("dynamic"), None);
}

#[test]
fn names_and_suffixes() {
    assert_eq!(Architecture::X64.name(), "x64");
    assert_eq!(Architecture::X86.name(), "x86");
    assert_eq!(BuildType::Debug.name(), "Debug");
    assert_eq!(BuildType::Release.name(), "Release");
    assert_eq!(Os::Windows.exe_suffix(), ".exe");
    assert_eq!(Os::Linux.exe_suffix(), "");
}

#[test]
fn build_dir_is_type_dash_arch() {
    assert_eq!(build_dir(BuildType::Debug, Architecture::X64), "build/Debug-x64");
    assert_eq!(build_dir(BuildType::Debug, Architecture::X86), "build/Debug-x86");
    assert_eq!(build_dir(BuildType::Release, Architecture::X64), "build/Release-x64");
    assert_eq!(build_dir(BuildType::Release, Architecture::X86), "build/Release-x86");
}

#[test]
fn build_dir_same_inputs_same_path_different_inputs_different_path() {
    let types = [BuildType::Debug, BuildType::Release];
    let archs = [Architecture::X64, Architecture::X86];
    for t1 in types {
        for a1 in archs {
            for t2 in types {
                for a2 in archs {
                    let same = t1 == t2 && a1 == a2;
                    assert_eq!(build_dir(t1, a1) == build_dir(t2, a2), same);
                }
            }
        }
    }
}

#[test]
fn configure_args_windows_debug_x64() {
    let args = configure_args(Os::Windows, Architecture::X64, BuildType::Debug);
    assert_eq!(
        args,
        strings(&[
            "-B",
            "build/Debug-x64",
            "-S",
            ".",
            "-G",
            "MinGW Makefiles",
            "-DCMAKE_EXPORT_COMPILE_COMMANDS=ON",
            "-DCMAKE_BUILD_TYPE=Debug",
            "-DCMAKE_C_FLAGS=-m64",
            "-DCMAKE_CXX_FLAGS=-m64",
            "-DEXECUTABLE_OUTPUT_PATH=bin",
            "-DLIBRARY_OUTPUT_PATH=bin",
            "-DCMAKE_C_COMPILER=x86_64-w64-mingw32-gcc.exe",
            "-DCMAKE_CXX_COMPILER=x86_64-w64-mingw32-g++.exe",
        ])
    );
}

#[test]
fn configure_args_linux_release_x86() {
    let args = configure_args(Os::Linux, Architecture::X86, BuildType::Release);
    assert_eq!(
        args,
        strings(&[
            "-B",
            "build/Release-x86",
            "-S",
            ".",
            "-G",
            "Unix Makefiles",
            "-DCMAKE_EXPORT_COMPILE_COMMANDS=ON",
            "-DCMAKE_BUILD_TYPE=Release",
            "-DCMAKE_C_FLAGS=-m32",
            "-DCMAKE_CXX_FLAGS=-m32",
            "-DEXECUTABLE_OUTPUT_PATH=bin",
            "-DLIBRARY_OUTPUT_PATH=bin",
            "-DCMAKE_C_COMPILER=gcc",
            "-DCMAKE_CXX_COMPILER=g++",
        ])
    );
}

#[test]
fn build_args_name_the_build_dir() {
    assert_eq!(
        build_args(Architecture::X86, BuildType::Debug),
        strings(&["--build", "build/Debug-x86"])
    );
}

#[test]
fn executable_path_has_platform_suffix() {
    assert_eq!(
        executable_path(Os::Windows, Architecture::X64, BuildType::Debug, "demo"),
        "build/Debug-x64/bin/demo.exe"
    );
    assert_eq!(
        executable_path(Os::Linux, Architecture::X86, BuildType::Release, "demo"),
        "build/Release-x86/bin/demo"
    );
}

#[test]
fn current_dir_name_falls_back_to_root() {
    assert_eq!(get_current_dir_name(Some("project")), "project");
    assert_eq!(get_current_dir_name(None), "root");
}

#[test]
fn from_flags_accepts_known_values() {
    let config = BuildConfig::from_flags("x86", "release", "shared", Some("demo".to_string())).unwrap();
    assert_eq!(config.architecture, Architecture::X86);
    assert_eq!(config.build_type, BuildType::Release);
    assert_eq!(config.library_type, LibraryType::Shared);
    assert_eq!(config.program_name, Some("demo".to_string()));
}

#[test]
fn from_flags_refuses_unknown_values() {
    assert_eq!(
        BuildConfig::from_flags("arm", "debug", "static", None),
        Err(ErrorKind::UnsupportedPlatform)
    );
    assert_eq!(
        BuildConfig::from_flags("arm", "fast", "static", None),
        Err(ErrorKind::UnsupportedPlatform)
    );
    assert_eq!(BuildConfig::from_flags("x64", "fast", "static", None), Err(ErrorKind::Input));
    assert_eq!(BuildConfig::from_flags("x64", "debug", "both", None), Err(ErrorKind::Input));
}

#[test]
fn run_plans_configure_build_and_program() {
    let config = BuildConfig {
        architecture: Architecture::X64,
        build_type: BuildType::Debug,
        library_type: LibraryType::Static,
        program_name: Some("demo".to_string()),
    };
    let plan = run("windows", &config).unwrap();
    assert_eq!(plan.build_dir, "build/Debug-x64");
    assert_eq!(plan.configure_args, configure_args(Os::Windows, Architecture::X64, BuildType::Debug));
    assert_eq!(plan.configure_args.len(), 14);
    assert_eq!(plan.build_args, strings(&["--build", "build/Debug-x64"]));
    assert_eq!(plan.executable, Some("build/Debug-x64/bin/demo.exe".to_string()));
}

#[test]
fn run_without_program_launches_nothing() {
    let config = BuildConfig {
        architecture: Architecture::X86,
        build_type: BuildType::Release,
        library_type: LibraryType::Shared,
        program_name: None,
    };
    let plan = run("linux", &config).unwrap();
    assert_eq!(plan.build_dir, "build/Release-x86");
    assert_eq!(plan.executable, None);
}

#[test]
fn run_refuses_unknown_os() {
    let config = BuildConfig {
        architecture: Architecture::X64,
        build_type: BuildType::Debug,
        library_type: LibraryType::Static,
        program_name: None,
    };
    assert_eq!(run("macos", &config), Err(ErrorKind::UnsupportedPlatform));
}

#[test]
fn error_messages_are_distinct_and_not_empty() {
    let kinds = [
        ErrorKind::Network,
        ErrorKind::Filesystem,
        ErrorKind::Archive,
        ErrorKind::ToolNotFound,
        ErrorKind::SubprocessFailure,
        ErrorKind::UnsupportedPlatform,
        ErrorKind::Input,
    ];
    for (i, a) in kinds.iter().enumerate() {
        assert!(!a.message().is_empty());
        for (j, b) in kinds.iter().enumerate() {
            assert_eq!(a.message() == b.message(), i == j);
        }
    }
    assert_eq!(ErrorKind::Archive.message(), "unsupported archive format");
    assert_eq!(ErrorKind::ToolNotFound.message(), "command not found");
}
