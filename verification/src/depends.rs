//! The programs that the patch engine consists of, and where on the host
//! they are kept. Whether the files exist, and writing them, is the
//! caller's work; which file belongs where is decided here.

use crate::helper::{
    ending_in_backslash, ends_with_separator, has_trailing_separator, with_trailing_backslash,
};
use vstd::prelude::*;
use vstd::string::StringExecFns;

verus! {

/// The kind of host that the session runs on. It is told once, at the
/// start of the session.
#[derive(Debug, Clone, Copy, PartialEq, Eq, Structural)]
pub enum Platform {
    Windows,
    Unix,
}

/// One of the files that the patch engine consists of.
#[derive(Debug, Clone, Copy, PartialEq, Eq, Structural)]
pub enum Dependency {
    /// The patch engine's program.
    Butler,
    /// The first library that the program loads.
    Library1,
    /// The second library that the program loads.
    Library2,
}

impl Platform {
    /// The character that separates the components of a path.
    pub open spec fn separator(self) -> char {
        match self {
            Platform::Windows => '\\',
            Platform::Unix => '/',
        }
    }
}

impl Dependency {
    /// The file name of the dependency on `platform`.
    pub open spec fn file_name(self, platform: Platform) -> Seq<char> {
        match (self, platform) {
            (Dependency::Butler, Platform::Windows) => seq![
                'b',
                'u',
                't',
                'l',
                'e',
                'r',
                '.',
                'e',
                'x',
                'e',
            ],
            (Dependency::Butler, Platform::Unix) => seq!['b', 'u', 't', 'l', 'e', 'r'],
            (Dependency::Library1, Platform::Windows) => seq!['7', 'z', '.', 'd', 'l', 'l'],
            (Dependency::Library1, Platform::Unix) => seq!['7', 'z', '.', 's', 'o'],
            (Dependency::Library2, Platform::Windows) => seq![
                'c',
                '7',
                'z',
                'i',
                'p',
                '.',
                'd',
                'l',
                'l',
            ],
            (Dependency::Library2, Platform::Unix) => seq![
                'l',
                'i',
                'b',
                'c',
                '7',
                'z',
                'i',
                'p',
                '.',
                's',
                'o',
            ],
        }
    }

    /// Where the dependency is kept, given the host's directory for
    /// temporary files.
    pub open spec fn location(self, temp_dir: Seq<char>, platform: Platform) -> Seq<char> {
        directory_path(temp_dir, platform) + self.file_name(platform)
    }
}

/// `path` as the path of a directory: ending in a separator, with the
/// platform's own added where it ends in none.
pub open spec fn directory_path(path: Seq<char>, platform: Platform) -> Seq<char> {
    if ends_with_separator(path) {
        path
    } else {
        path.push(platform.separator())
    }
}

/// The host's directory for temporary files, as a path that ends in a
/// separator.
pub fn get_tmp_dir(temp_dir: &str, platform: Platform) -> (path: String)
    ensures
        path@ == directory_path(temp_dir@, platform),
{
    let mut path = temp_dir.to_owned();
    if !has_trailing_separator(temp_dir) {
        proof {
            reveal_strlit("\\");
            reveal_strlit("/");
        }
        match platform {
            Platform::Windows => {
                path.append("\\");
                assert(path@ =~= temp_dir@.push('\\'));
            },
            Platform::Unix => {
                path.append("/");
                assert(path@ =~= temp_dir@.push('/'));
            },
        }
    }
    path
}

/// The file name of `dependency` on `platform`.
fn dependency_file_name(dependency: Dependency, platform: Platform) -> (name: &'static str)
    ensures
        name@ == dependency.file_name(platform),
{
    proof {
        reveal_strlit("butler.exe");
        reveal_strlit("butler");
        reveal_strlit("7z.dll");
        reveal_strlit("7z.so");
        reveal_strlit("c7zip.dll");
        reveal_strlit("libc7zip.so");
    }
    let name = match (dependency, platform) {
        (Dependency::Butler, Platform::Windows) => "butler.exe",
        (Dependency::Butler, Platform::Unix) => "butler",
        (Dependency::Library1, Platform::Windows) => "7z.dll",
        (Dependency::Library1, Platform::Unix) => "7z.so",
        (Dependency::Library2, Platform::Windows) => "c7zip.dll",
        (Dependency::Library2, Platform::Unix) => "libc7zip.so",
    };
    assert(name@ =~= dependency.file_name(platform));
    name
}

/// Where `dependency` is kept.
fn dependency_location(dependency: Dependency, temp_dir: &str, platform: Platform) -> (location:
    String)
    ensures
        location@ == dependency.location(temp_dir@, platform),
{
    let mut location = get_tmp_dir(temp_dir, platform);
    location.append(dependency_file_name(dependency, platform));
    location
}

/// Where the patch engine's program is kept.
pub fn get_butler_location(temp_dir: &str, platform: Platform) -> (location: String)
    ensures
        location@ == Dependency::Butler.location(temp_dir@, platform),
{
    dependency_location(Dependency::Butler, temp_dir, platform)
}

/// Where the first library of the patch engine is kept.
pub fn get_butler_1_location(temp_dir: &str, platform: Platform) -> (location: String)
    ensures
        location@ == Dependency::Library1.location(temp_dir@, platform),
{
    dependency_location(Dependency::Library1, temp_dir, platform)
}

/// Where the second library of the patch engine is kept.
pub fn get_butler_2_location(temp_dir: &str, platform: Platform) -> (location: String)
    ensures
        location@ == Dependency::Library2.location(temp_dir@, platform),
{
    dependency_location(Dependency::Library2, temp_dir, platform)
}

/// Where the installer of the redistributable runtime is downloaded to on
/// Windows, given the host's directory for temporary files.
pub open spec fn vcredist_location(temp_dir: Seq<char>) -> Seq<char> {
    ending_in_backslash(temp_dir) + seq![
        'v',
        'c',
        '_',
        'r',
        'e',
        'd',
        'i',
        's',
        't',
        '.',
        'e',
        'x',
        'e',
    ]
}

/// Where the installer of the redistributable runtime is downloaded to.
pub fn get_vcredist_location(temp_dir: &str) -> (location: String)
    ensures
        location@ == vcredist_location(temp_dir@),
{
    proof {
        reveal_strlit("vc_redist.exe");
    }
    let mut location = with_trailing_backslash(temp_dir);
    location.append("vc_redist.exe");
    assert(location@ =~= vcredist_location(temp_dir@));
    location
}

/// Which of the patch engine's files exist on the host.
#[derive(Debug, Clone, Copy, PartialEq, Eq, Structural)]
pub struct DependencyFiles {
    pub butler: bool,
    pub library_1: bool,
    pub library_2: bool,
}

impl DependencyFiles {
    /// Whether the file of `dependency` exists.
    pub open spec fn has(self, dependency: Dependency) -> bool {
        match dependency {
            Dependency::Butler => self.butler,
            Dependency::Library1 => self.library_1,
            Dependency::Library2 => self.library_2,
        }
    }
}

/// Tells whether the patch engine is complete: its program and both of its
/// libraries are there.
pub fn butler_exists(files: DependencyFiles) -> (complete: bool)
    ensures
        complete == (files.butler && files.library_1 && files.library_2),
{
    files.butler && files.library_1 && files.library_2
}

/// A file of the patch engine that is to be written to the host.
#[derive(Debug, PartialEq, Eq)]
pub struct DependencyWrite {
    pub dependency: Dependency,
    pub location: String,
}

/// Mathematical model of a [`DependencyWrite`].
pub struct DependencyWriteView {
    pub dependency: Dependency,
    pub location: Seq<char>,
}

impl View for DependencyWrite {
    type V = DependencyWriteView;

    open spec fn view(&self) -> DependencyWriteView {
        DependencyWriteView { dependency: self.dependency, location: self.location@ }
    }
}

/// The write that puts `dependency` in its place.
pub open spec fn write_of(
    dependency: Dependency,
    temp_dir: Seq<char>,
    platform: Platform,
) -> DependencyWriteView {
    DependencyWriteView { dependency, location: dependency.location(temp_dir, platform) }
}

/// The writes that complete the patch engine on a host with `files`: one
/// for each file that is missing, the program first, then the libraries in
/// their order. A file that exists is left alone.
pub open spec fn missing_dependencies(
    temp_dir: Seq<char>,
    platform: Platform,
    files: DependencyFiles,
) -> Seq<DependencyWriteView> {
    let butler = if files.butler {
        Seq::empty()
    } else {
        seq![write_of(Dependency::Butler, temp_dir, platform)]
    };
    let library_1 = if files.library_1 {
        Seq::empty()
    } else {
        seq![write_of(Dependency::Library1, temp_dir, platform)]
    };
    let library_2 = if files.library_2 {
        Seq::empty()
    } else {
        seq![write_of(Dependency::Library2, temp_dir, platform)]
    };
    butler + library_1 + library_2
}

/// The models of a list of writes, in order.
pub open spec fn writes_view(writes: Seq<DependencyWrite>) -> Seq<DependencyWriteView> {
    writes.map_values(|write: DependencyWrite| write@)
}

/// Settles which files of the patch engine have to be written to the host,
/// and where.
pub fn try_write_deps(temp_dir: &str, platform: Platform, files: DependencyFiles) -> (writes: Vec<
    DependencyWrite,
>)
    ensures
        writes_view(writes@) == missing_dependencies(temp_dir@, platform, files),
{
    let mut writes: Vec<DependencyWrite> = Vec::new();
    assert(writes_view(writes@) =~= Seq::empty());
    if !files.butler {
        let ghost before = writes@;
        writes.push(
            DependencyWrite {
                dependency: Dependency::Butler,
                location: get_butler_location(temp_dir, platform),
            },
        );
        assert(writes_view(writes@) =~= writes_view(before).push(
            write_of(Dependency::Butler, temp_dir@, platform),
        ));
    }
    if !files.library_1 {
        let ghost before = writes@;
        writes.push(
            DependencyWrite {
                dependency: Dependency::Library1,
                location: get_butler_1_location(temp_dir, platform),
            },
        );
        assert(writes_view(writes@) =~= writes_view(before).push(
            write_of(Dependency::Library1, temp_dir@, platform),
        ));
    }
    if !files.library_2 {
        let ghost before = writes@;
        writes.push(
            DependencyWrite {
                dependency: Dependency::Library2,
                location: get_butler_2_location(temp_dir, platform),
            },
        );
        assert(writes_view(writes@) =~= writes_view(before).push(
            write_of(Dependency::Library2, temp_dir@, platform),
        ));
    }
    assert(writes_view(writes@) =~= missing_dependencies(temp_dir@, platform, files));
    writes
}

} // verus!
