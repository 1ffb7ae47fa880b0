use toolchain_bootstrap::registry::{all_tools, lookup, tool_at};

#[test]
fn lookup_cmake() {
    let t = lookup("cmake").unwrap();
    assert_eq!(t.name, "cmake");
    assert_eq!(
        t.download_url,
        "https://github.com/Kitware/CMake/releases/download/v3.31.6/cmake-3.31.6-windows-x86_64.zip"
    );
    assert_eq!(t.install_subdir, "cmake");
}

#[test]
fn lookup_mingw64() {
    let t = lookup("x86_64-w64-mingw32-gcc").unwrap();
    assert_eq!(t.name, "x86_64-w64-mingw32-gcc");
    assert_eq!(
        t.download_url,
        "https://github.com/niXman/mingw-builds-binaries/releases/download/14.2.0-rt_v12-rev1/x86_64-14.2.0-release-posix-seh-ucrt-rt_v12-rev1.7z"
    );
    assert_eq!(t.install_subdir, "mingw64");
}

#[test]
fn lookup_mingw32() {
    let t = lookup("i686-w64-mingw32-gcc").unwrap();
    assert_eq!(t.name, "i686-w64-mingw32-gcc");
    assert_eq!(
        t.download_url,
        "https://github.com/niXman/mingw-builds-binaries/releases/download/14.2.0-rt_v12-rev1/i686-14.2.0-release-posix-dwarf-ucrt-rt_v12-rev1.7z"
    );
    assert_eq!(t.install_subdir, "mingw32");
}

#[test]
fn lookup_unknown_is_not_found() {
    assert_eq!(lookup("ninja"), None);
    assert_eq!(lookup(""), None);
    assert_eq!(lookup("CMake"), None);
    assert_eq!(lookup("cmake.exe"), None);
}

#[test]
fn table_is_ordered_by_name() {
    let tools = all_tools();
    assert_eq!(tools.len(), 3);
    assert_eq!(tools[0].name, "cmake");
    assert_eq!(tools[1].name, "i686-w64-mingw32-gcc");
    assert_eq!(tools[2].name, "x86_64-w64-mingw32-gcc");
    for (i, t) in tools.iter().enumerate() {
        assert_eq!(Some(t.clone()), tool_at(i));
        assert_eq!(Some(t.clone()), lookup(&t.name));
    }
    assert_eq!(tool_at(3), None);
}
