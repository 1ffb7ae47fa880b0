//! The fixed table of tools that a build needs, each with the place its
//! release archive is downloaded from and the directory it is installed in.

use vstd::prelude::*;
use vstd::string::*;
use crate::text::same_text;

verus! {

/// One tool: the executable probed on the search path, the URL of its
/// release archive, and its directory under the tools root.
#[derive(Clone, Debug, PartialEq, Eq)]
pub struct ToolSpec {
    pub name: String,
    pub download_url: String,
    pub install_subdir: String,
}

/// What a `ToolSpec` holds, as character sequences.
pub struct ToolSpecView {
    pub name: Seq<char>,
    pub download_url: Seq<char>,
    pub install_subdir: Seq<char>,
}

impl View for ToolSpec {
    type V = ToolSpecView;

    open spec fn view(&self) -> ToolSpecView {
        ToolSpecView {
            name: self.name@,
            download_url: self.download_url@,
            install_subdir: self.install_subdir@,
        }
    }
}

/// The table: CMake and the two MinGW toolchains, ordered by the name of
/// the executable.
pub open spec fn spec_registry() -> Seq<ToolSpecView> {
    seq![
        ToolSpecView {
            name: "cmake"@,
            download_url: "https://github.com/Kitware/CMake/releases/download/v3.31.6/cmake-3.31.6-windows-x86_64.zip"@,
            install_subdir: "cmake"@,
        },
        ToolSpecView {
            name: "i686-w64-mingw32-gcc"@,
            download_url: "https://github.com/niXman/mingw-builds-binaries/releases/download/14.2.0-rt_v12-rev1/i686-14.2.0-release-posix-dwarf-ucrt-rt_v12-rev1.7z"@,
            install_subdir: "mingw32"@,
        },
        ToolSpecView {
            name: "x86_64-w64-mingw32-gcc"@,
            download_url: "https://github.com/niXman/mingw-builds-binaries/releases/download/14.2.0-rt_v12-rev1/x86_64-14.2.0-release-posix-seh-ucrt-rt_v12-rev1.7z"@,
            install_subdir: "mingw64"@,
        },
    ]
}

/// The first entry among `table[from..]` whose executable name is `name`.
pub open spec fn spec_find(table: Seq<ToolSpecView>, name: Seq<char>, from: int) -> Option<
    ToolSpecView,
>
    decreases table.len() - from,
{
    if from < 0 || from >= table.len() {
        None
    } else if table[from].name == name {
        Some(table[from])
    } else {
        spec_find(table, name, from + 1)
    }
}

/// The entry of the table whose executable name is `name`.
pub open spec fn spec_lookup(name: Seq<char>) -> Option<ToolSpecView> {
    spec_find(spec_registry(), name, 0)
}

/// The views of a list of tools, in order.
pub open spec fn tool_views(tools: Seq<ToolSpec>) -> Seq<ToolSpecView> {
    Seq::new(tools.len(), |i: int| tools[i]@)
}

/// The view of an optional tool.
pub open spec fn opt_tool_view(tool: Option<ToolSpec>) -> Option<ToolSpecView> {
    match tool {
        Some(t) => Some(t@),
        None => None,
    }
}

/// The `i`-th entry of the table, or `None` past its end.
pub fn tool_at(i: usize) -> (r: Option<ToolSpec>)
    ensures
        opt_tool_view(r) == if i < spec_registry().len() {
            Some(spec_registry()[i as int])
        } else {
            None
        },
{
    if i == 0 {
        Some(
            ToolSpec {
                name: String::from_str("cmake"),
                download_url: String::from_str(
                    "https://github.com/Kitware/CMake/releases/download/v3.31.6/cmake-3.31.6-windows-x86_64.zip",
                ),
                install_subdir: String::from_str("cmake"),
            },
        )
    } else if i == 1 {
        Some(
            ToolSpec {
                name: String::from_str("i686-w64-mingw32-gcc"),
                download_url: String::from_str(
                    "https://github.com/niXman/mingw-builds-binaries/releases/download/14.2.0-rt_v12-rev1/i686-14.2.0-release-posix-dwarf-ucrt-rt_v12-rev1.7z",
                ),
                install_subdir: String::from_str("mingw32"),
            },
        )
    } else if i == 2 {
        Some(
            ToolSpec {
                name: String::from_str("x86_64-w64-mingw32-gcc"),
                download_url: String::from_str(
                    "https://github.com/niXman/mingw-builds-binaries/releases/download/14.2.0-rt_v12-rev1/x86_64-14.2.0-release-posix-seh-ucrt-rt_v12-rev1.7z",
                ),
                install_subdir: String::from_str("mingw64"),
            },
        )
    } else {
        None
    }
}

/// The whole table, in the order in which the tools are provisioned.
pub fn all_tools() -> (r: Vec<ToolSpec>)
    ensures
        tool_views(r@) == spec_registry(),
{
    let mut tools: Vec<ToolSpec> = Vec::new();
    let mut i: usize = 0;
    while i < 3
        invariant
            i <= 3,
            tools@.len() == i,
            forall|k: int| 0 <= k < tools@.len() ==> (#[trigger] tools@[k])@ == spec_registry()[k],
        decreases 3 - i,
    {
        match tool_at(i) {
            Some(t) => {
                tools.push(t);
            },
            None => {},
        }
        i = i + 1;
    }
    assert(tool_views(tools@) =~= spec_registry());
    tools
}

/// The entry whose executable name is `name`, or `None` where the table
/// has none.
pub fn lookup(name: &str) -> (r: Option<ToolSpec>)
    ensures
        opt_tool_view(r) == spec_lookup(name@),
{
    reveal_with_fuel(spec_find, 4);
    if same_text(name, "cmake") {
        tool_at(0)
    } else if same_text(name, "i686-w64-mingw32-gcc") {
        tool_at(1)
    } else if same_text(name, "x86_64-w64-mingw32-gcc") {
        tool_at(2)
    } else {
        None
    }
}

/// Looking a name up gives the one entry of the table that carries it,
/// and nothing where no entry does.
pub proof fn lemma_lookup_by_name(name: Seq<char>)
    ensures
        match spec_lookup(name) {
            Some(t) => t.name == name && spec_registry().contains(t),
            None => forall|i: int|
                0 <= i < spec_registry().len() ==> (#[trigger] spec_registry()[i]).name != name,
        },
{
    reveal_with_fuel(spec_find, 4);
    let table = spec_registry();
    assert(table.len() == 3);
    match spec_lookup(name) {
        Some(t) => {
            assert(t == table[0] || t == table[1] || t == table[2]);
        },
        None => {},
    }
}

/// No two entries of the table share an executable name.
pub proof fn lemma_names_distinct(i: int, j: int)
    requires
        0 <= i < spec_registry().len(),
        0 <= j < spec_registry().len(),
        i != j,
    ensures
        spec_registry()[i].name != spec_registry()[j].name,
{
    reveal_strlit("cmake");
    reveal_strlit("i686-w64-mingw32-gcc");
    reveal_strlit("x86_64-w64-mingw32-gcc");
    let table = spec_registry();
    assert(table[0].name.len() == 5);
    assert(table[1].name.len() == 20);
    assert(table[2].name.len() == 22);
}

} // verus!
