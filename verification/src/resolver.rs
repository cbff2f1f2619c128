//! Where the executables of the two services are looked for.
//!
//! The library lists the candidate paths in order of priority. The host says
//! of each whether it exists, and the first that does is the one to run.

use vstd::prelude::*;
use vstd::string::*;
use crate::paths::{child2, child3, child4, child_of, join2, join3, join4, join_path};
use crate::supervisor::Platform;
use crate::text::{ends_with, is_prefix, is_suffix, opt_text, starts_with, texts};

verus! {

/// How many leading bytes of an executable the host reads for the header check.
pub const HEADER_PROBE_LEN: usize = 128;

/// The flag at a position; a position without a flag counts as unset.
pub open spec fn flag_at(flags: Seq<bool>, i: int) -> bool {
    0 <= i < flags.len() && flags[i]
}

/// The least position below `n` whose flag is set.
pub open spec fn first_flagged(flags: Seq<bool>, n: nat) -> Option<nat>
    decreases n,
{
    if n == 0 {
        None
    } else {
        match first_flagged(flags, (n - 1) as nat) {
            Some(i) => Some(i),
            None => if flag_at(flags, n - 1) {
                Some((n - 1) as nat)
            } else {
                None
            },
        }
    }
}

/// `first_flagged` names a set flag that no set flag precedes, and finds none
/// only where none below `n` is set.
pub proof fn lemma_first_flagged(flags: Seq<bool>, n: nat)
    ensures
        match first_flagged(flags, n) {
            Some(i) => i < n && flag_at(flags, i as int) && forall|j: int|
                0 <= j < i ==> !flag_at(flags, j),
            None => forall|j: int| 0 <= j < n ==> !flag_at(flags, j),
        },
    decreases n,
{
    if n > 0 {
        lemma_first_flagged(flags, (n - 1) as nat);
    }
}

/// The first of `count` candidates that exists, by the host's `exists` flags.
pub fn first_existing(count: usize, exists: &Vec<bool>) -> (found: Option<usize>)
    ensures
        match found {
            Some(i) => first_flagged(exists@, count as nat) == Some(i as nat),
            None => first_flagged(exists@, count as nat) is None,
        },
{
    let mut i: usize = 0;
    while i < count
        invariant
            i <= count,
            first_flagged(exists@, i as nat) is None,
        decreases count - i,
    {
        if i < exists.len() && exists[i] {
            proof {
                lemma_first_flagged_extends(exists@, (i + 1) as nat, count as nat);
            }
            return Some(i);
        }
        i = i + 1;
    }
    None
}

proof fn lemma_first_flagged_extends(flags: Seq<bool>, m: nat, n: nat)
    requires
        m <= n,
        first_flagged(flags, m) is Some,
    ensures
        first_flagged(flags, n) == first_flagged(flags, m),
    decreases n,
{
    if m < n {
        lemma_first_flagged_extends(flags, m, (n - 1) as nat);
    }
}

/// The interpreters of a local virtual environment under the install root.
pub open spec fn venv_python_paths(root: Seq<char>) -> Seq<Seq<char>> {
    seq![
        child3(root, ".venv"@, "Scripts"@, "python.exe"@),
        child3(root, ".venv"@, "bin"@, "python"@),
    ]
}

/// Lists the interpreters of a local virtual environment, in order of priority.
pub fn venv_python_candidates(root: &str) -> (paths: Vec<String>)
    ensures
        texts(paths@) == venv_python_paths(root@),
{
    let mut paths: Vec<String> = Vec::new();
    paths.push(join3(root, ".venv", "Scripts", "python.exe"));
    paths.push(join3(root, ".venv", "bin", "python"));
    assert(texts(paths@) =~= venv_python_paths(root@));
    paths
}

/// Whether a file name beside the host executable can be the sidecar: it
/// begins with the sidecar's name, and on Windows it ends in `.exe`.
pub open spec fn sidecar_name_matches(name: Seq<char>, platform: Platform) -> bool {
    is_prefix("faceforge-core"@, name) && (platform is Windows ==> is_suffix(".exe"@, name))
}

/// The files of `dir` that can be the sidecar, in the order of the listing.
pub open spec fn scanned_sidecars(dir: Seq<char>, files: Seq<Seq<char>>, platform: Platform) -> Seq<
    Seq<char>,
>
    decreases files.len(),
{
    if files.len() == 0 {
        Seq::empty()
    } else {
        let rest = scanned_sidecars(dir, files.drop_last(), platform);
        if sidecar_name_matches(files.last(), platform) {
            rest.push(child_of(dir, files.last()))
        } else {
            rest
        }
    }
}

/// The sidecar's fixed places in the `binaries` directory of the install root.
pub open spec fn bundled_sidecar_paths(root: Seq<char>) -> Seq<Seq<char>> {
    seq![
        child4(root, "desktop"@, "src-tauri"@, "binaries"@, "faceforge-core.exe"@),
        child4(root, "desktop"@, "src-tauri"@, "binaries"@, "faceforge-core"@),
    ]
}

/// The sidecar's fixed places beside the host executable, then in the
/// `binaries` directory beside it.
pub open spec fn sibling_sidecar_paths(dir: Seq<char>) -> Seq<Seq<char>> {
    seq![
        child_of(dir, "faceforge-core.exe"@),
        child_of(dir, "faceforge-core"@),
        child2(dir, "binaries"@, "faceforge-core.exe"@),
        child2(dir, "binaries"@, "faceforge-core"@),
    ]
}

/// Every place where the primary service's sidecar is looked for: the install
/// root's `binaries` directory, beside the host executable, the `binaries`
/// directory beside it, and last the files beside it that carry the sidecar's
/// name with a suffix.
pub open spec fn sidecar_paths(
    root: Seq<char>,
    exe_dir: Option<Seq<char>>,
    files: Seq<Seq<char>>,
    platform: Platform,
) -> Seq<Seq<char>> {
    bundled_sidecar_paths(root) + match exe_dir {
        Some(dir) => sibling_sidecar_paths(dir) + scanned_sidecars(dir, files, platform),
        None => Seq::empty(),
    }
}

/// Lists the candidate paths of the primary service's sidecar, in order of
/// priority. `exe_dir` is the directory of the host executable and
/// `exe_dir_files` the names of the regular files in it.
pub fn core_sidecar_candidates(
    root: &str,
    exe_dir: &Option<String>,
    exe_dir_files: &Vec<String>,
    platform: Platform,
) -> (paths: Vec<String>)
    ensures
        texts(paths@) == sidecar_paths(root@, opt_text(*exe_dir), texts(exe_dir_files@), platform),
{
    let mut paths: Vec<String> = Vec::new();
    paths.push(join4(root, "desktop", "src-tauri", "binaries", "faceforge-core.exe"));
    paths.push(join4(root, "desktop", "src-tauri", "binaries", "faceforge-core"));
    assert(texts(paths@) =~= bundled_sidecar_paths(root@));
    match exe_dir {
        None => {
            assert(texts(paths@) =~= sidecar_paths(
                root@,
                opt_text(*exe_dir),
                texts(exe_dir_files@),
                platform,
            ));
        },
        Some(dir) => {
            let dir: &str = dir.as_str();
            paths.push(join_path(dir, "faceforge-core.exe"));
            paths.push(join_path(dir, "faceforge-core"));
            paths.push(join2(dir, "binaries", "faceforge-core.exe"));
            paths.push(join2(dir, "binaries", "faceforge-core"));
            let ghost fixed = bundled_sidecar_paths(root@) + sibling_sidecar_paths(dir@);
            assert(texts(paths@) =~= fixed);
            let windows = match platform {
                Platform::Windows => true,
                Platform::Unix => false,
            };
            let mut i: usize = 0;
            while i < exe_dir_files.len()
                invariant
                    i <= exe_dir_files.len(),
                    windows == (platform is Windows),
                    texts(paths@) == fixed + scanned_sidecars(
                        dir@,
                        texts(exe_dir_files@).subrange(0, i as int),
                        platform,
                    ),
                decreases exe_dir_files.len() - i,
            {
                let name: &str = exe_dir_files[i].as_str();
                let ghost before = texts(exe_dir_files@).subrange(0, i as int);
                let ghost after = texts(exe_dir_files@).subrange(0, i + 1);
                proof {
                    assert(after.drop_last() =~= before);
                    assert(after.last() == name@);
                }
                let ghost listed = texts(paths@);
                let fits = starts_with(name, "faceforge-core") && (!windows || ends_with(
                    name,
                    ".exe",
                ));
                assert(fits == sidecar_name_matches(name@, platform));
                if fits {
                    paths.push(join_path(dir, name));
                    assert(texts(paths@) =~= listed.push(child_of(dir@, name@)));
                    assert(scanned_sidecars(dir@, after, platform) == scanned_sidecars(
                        dir@,
                        before,
                        platform,
                    ).push(child_of(dir@, name@)));
                    assert(texts(paths@) =~= fixed + scanned_sidecars(dir@, after, platform));
                } else {
                    assert(scanned_sidecars(dir@, after, platform) == scanned_sidecars(
                        dir@,
                        before,
                        platform,
                    ));
                }
                i = i + 1;
            }
            assert(texts(exe_dir_files@).subrange(0, i as int) =~= texts(exe_dir_files@));
        },
    }
    paths
}

/// The two names under which a tools directory can hold the auxiliary
/// service's executable.
pub open spec fn tools_dir_paths(dir: Seq<char>) -> Seq<Seq<char>> {
    seq![child_of(dir, "weed.exe"@), child_of(dir, "weed"@)]
}

/// Every place where the auxiliary service's executable is looked for: the
/// configured path if there is one, then the tools directories of the install
/// root, of a development checkout and of a packaged installation, and last
/// the place in the managed home directory where a user may have put it.
pub open spec fn weed_paths(root: Seq<char>, home: Seq<char>, explicit: Option<Seq<char>>) -> Seq<
    Seq<char>,
> {
    (match explicit {
        Some(path) => seq![path],
        None => Seq::empty(),
    }) + tools_dir_paths(child_of(root, "tools"@)) + tools_dir_paths(
        child4(root, "desktop"@, "src-tauri"@, "resources"@, "tools"@),
    ) + tools_dir_paths(child3(root, ".."@, "resources"@, "tools"@)) + seq![
        child2(home, "tools"@, "weed.exe"@),
    ]
}

fn push_tools_dir(paths: &mut Vec<String>, dir: &str)
    ensures
        texts(final(paths)@) == texts(old(paths)@) + tools_dir_paths(dir@),
{
    paths.push(join_path(dir, "weed.exe"));
    paths.push(join_path(dir, "weed"));
    assert(texts(paths@) =~= texts(old(paths)@) + tools_dir_paths(dir@));
}

/// Lists the candidate paths of the auxiliary service's executable, in order
/// of priority.
pub fn weed_candidates(root: &str, home: &str, explicit: &Option<String>) -> (paths: Vec<String>)
    ensures
        texts(paths@) == weed_paths(root@, home@, opt_text(*explicit)),
{
    let mut paths: Vec<String> = Vec::new();
    match explicit {
        Some(path) => {
            paths.push(path.clone());
            assert(texts(paths@) =~= seq![path@]);
        },
        None => {
            assert(texts(paths@) =~= Seq::<Seq<char>>::empty());
        },
    }
    let install_tools = join_path(root, "tools");
    push_tools_dir(&mut paths, install_tools.as_str());
    let checkout_tools = join4(root, "desktop", "src-tauri", "resources", "tools");
    push_tools_dir(&mut paths, checkout_tools.as_str());
    let packaged_tools = join3(root, "..", "resources", "tools");
    push_tools_dir(&mut paths, packaged_tools.as_str());
    let ghost listed = texts(paths@);
    paths.push(join2(home, "tools", "weed.exe"));
    assert(texts(paths@) =~= listed + seq![child2(home@, "tools"@, "weed.exe"@)]);
    paths
}

/// Whether the leading bytes of a file are those of a native executable: the
/// two letters `MZ`.
pub open spec fn has_native_header(header: Seq<u8>) -> bool {
    header.len() >= 2 && header[0] == 0x4d && header[1] == 0x5a
}

/// Tests the leading bytes of a file for the marker of a native executable.
pub fn is_native_executable(header: &Vec<u8>) -> (b: bool)
    ensures
        b == has_native_header(header@),
{
    header.len() >= 2 && header[0] == 0x4d && header[1] == 0x5a
}

} // verus!
