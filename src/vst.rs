//! The VST3 bundle: where the library goes inside it for each target, and
//! the descriptor files macOS hosts require. Everything here computes paths
//! and file contents; creating them on disk is left to the caller.

use vstd::prelude::*;
use crate::format::Format;
use crate::target::{same_text, Arch, Target};

verus! {

/// The VST3 plugin format.
pub struct Vst3;

/// Why a bundle could not be laid out.
#[derive(Clone, Copy, Debug, PartialEq, Eq, Structural)]
pub enum BundleError {
    /// The input path has no parent directory or no file stem.
    InvalidPath,
    /// No target was given and the host has no known target.
    UnsupportedHost,
}

/// A file to write inside a bundle.
#[derive(Debug)]
pub struct DescriptorFile {
    pub path: String,
    pub contents: String,
}

/// Everything that building a bundle puts on disk.
#[derive(Debug)]
pub struct BundlePlan {
    /// The bundle directory, `<parent>/<package>.vst3`.
    pub bundle_root: String,
    /// The directory to create for the library.
    pub library_dir: String,
    /// Where the input library is copied.
    pub library_path: String,
    /// Descriptor files to write, with their contents.
    pub descriptor_files: Vec<DescriptorFile>,
}

/// A bundle plan as text.
pub ghost struct BundleLayout {
    pub bundle_root: Seq<char>,
    pub library_dir: Seq<char>,
    pub library_path: Seq<char>,
    pub descriptor_files: Seq<(Seq<char>, Seq<char>)>,
}

impl View for BundlePlan {
    type V = BundleLayout;

    open spec fn view(&self) -> BundleLayout {
        BundleLayout {
            bundle_root: self.bundle_root@,
            library_dir: self.library_dir@,
            library_path: self.library_path@,
            descriptor_files: self.descriptor_files@.map_values(
                |f: DescriptorFile| (f.path@, f.contents@),
            ),
        }
    }
}

/// What `Path::parent` gives for a path, as text; `None` where there is no
/// parent.
pub uninterp spec fn parent_of(path: Seq<char>) -> Option<Seq<char>>;

/// What `Path::file_stem` gives for a path, as text; `None` where there is
/// no stem.
pub uninterp spec fn file_stem_of(path: Seq<char>) -> Option<Seq<char>>;

/// What `Path::join` gives for a base path and a relative path, as text.
pub uninterp spec fn joined_of(base: Seq<char>, rest: Seq<char>) -> Seq<char>;

/// A non-empty path of one component, with no separator (`/`, `\\`) and
/// no drive prefix (`:`).
pub open spec fn is_bare_name(path: Seq<char>) -> bool {
    path.len() > 0 && forall|i: int|
        0 <= i < path.len() ==> {
            let c = #[trigger] path[i];
            c != '/' && c != '\\' && c != ':'
        }
}

/// A path with no `.` in it.
pub open spec fn has_no_dot(path: Seq<char>) -> bool {
    forall|i: int| 0 <= i < path.len() ==> #[trigger] path[i] != '.'
}

/// A non-empty path that starts with no separator and whose second
/// character is not `:`, so that it has neither a root nor a Windows prefix
/// such as `C:` or `\\server`.
pub open spec fn is_plain_relative(path: Seq<char>) -> bool {
    path.len() > 0 && path[0] != '/' && path[0] != '\\' && (path.len() < 2 || path[1] != ':')
}

/// Relies on `std::path::Path::parent`: a bare name's parent is the empty
/// path, as in the method's own documented example (`foo` has parent ``""``).
#[verifier::external_body]
fn path_parent(path: &str) -> (r: Option<String>)
    ensures
        (match r {
            Some(p) => parent_of(path@) == Some(p@),
            None => parent_of(path@) is None,
        }),
        is_bare_name(path@) ==> r is Some && r->Some_0@.len() == 0,
{
    std::path::Path::new(path).parent().and_then(std::path::Path::to_str).map(String::from)
}

/// Relies on `std::path::Path::file_stem`: the file name without its last
/// extension; a file name with no `.` is its own stem.
#[verifier::external_body]
fn path_file_stem(path: &str) -> (r: Option<String>)
    ensures
        (match r {
            Some(s) => file_stem_of(path@) == Some(s@),
            None => file_stem_of(path@) is None,
        }),
        is_bare_name(path@) && has_no_dot(path@) ==> r is Some && r->Some_0@ == path@,
{
    match std::path::Path::new(path).file_stem() {
        Some(stem) => stem.to_str().map(String::from),
        None => None,
    }
}

/// Relies on `std::path::Path::join` (`PathBuf::push`): a relative path
/// pushed onto the empty path is that path.
#[verifier::external_body]
fn path_join(base: &str, rest: &str) -> (r: String)
    ensures
        r@ == joined_of(base@, rest@),
        base@.len() == 0 && is_plain_relative(rest@) ==> r@ == rest@,
{
    std::path::Path::new(base).join(rest).to_string_lossy().into_owned()
}

/// The directory under `Contents` that holds the library for a target.
pub open spec fn layout_dir(t: Target) -> Seq<char> {
    match t {
        Target::Linux(Arch::X64) => "x86_64-linux"@,
        Target::Linux(Arch::X86_64) => "i386-linux"@,
        Target::Mac => "MacOS"@,
        Target::Windows(Arch::X64) => "x86_64-win"@,
        Target::Windows(Arch::X86_64) => "x86-win"@,
    }
}

/// The library's file name inside the bundle.
pub open spec fn bundle_library_name(package: Seq<char>, t: Target) -> Seq<char> {
    match t {
        Target::Linux(_) => package + ".so"@,
        Target::Mac => package,
        Target::Windows(_) => package + ".vst3"@,
    }
}

/// The bundle directory's name.
pub open spec fn bundle_name(package: Seq<char>) -> Seq<char> {
    package + ".vst3"@
}

/// The library's directory, relative to the bundle's parent.
pub open spec fn lib_local_dir_text(package: Seq<char>, t: Target) -> Seq<char> {
    bundle_name(package) + "/Contents/"@ + layout_dir(t)
}

/// The library's path, relative to the bundle's parent.
pub open spec fn lib_local_path_text(package: Seq<char>, t: Target) -> Seq<char> {
    lib_local_dir_text(package, t) + "/"@ + bundle_library_name(package, t)
}

/// The platform's file name for a compiled shared library.
pub open spec fn exported_lib_filename_text(package: Seq<char>, t: Target) -> Seq<char> {
    match t {
        Target::Linux(_) => "lib"@ + package + ".so"@,
        Target::Mac => "lib"@ + package + ".dylib"@,
        Target::Windows(_) => package + ".dll"@,
    }
}

/// The platform's file name for a compiled shared library on a host
/// operating system named as Rust names it (`linux`, `macos`, `windows`);
/// `None` for any other.
pub open spec fn host_lib_filename_text(package: Seq<char>, os: Seq<char>) -> Option<Seq<char>> {
    if os == "linux"@ {
        Some("lib"@ + package + ".so"@)
    } else if os == "macos"@ {
        Some("lib"@ + package + ".dylib"@)
    } else if os == "windows"@ {
        Some(package + ".dll"@)
    } else {
        None
    }
}

/// The `Info.plist` document of a package.
pub open spec fn info_plist_text(package: Seq<char>) -> Seq<char> {
    "<?xml version=\"1.0\" encoding=\"UTF-8\"?>\n<!DOCTYPE plist PUBLIC \"-//Apple//DTD PLIST 1.0//EN\" \"http://www.apple.com/DTDs/PropertyList-1.0.dtd\">\n<plist>\n  <dict>\n    <key>CFBundleExecutable</key>\n    <string>"@ + package + "</string>\n    <key>CFBundleIconFile</key>\n    <string></string>\n    <key>CFBundleIdentifier</key>\n    <string>com.nih-plug."@ + package + "</string>\n    <key>CFBundleName</key>\n    <string>"@ + package + "</string>\n    <key>CFBundleDisplayName</key>\n    <string>"@ + package + "</string>\n    <key>CFBundlePackageType</key>\n    <string>BNDL</string>\n    <key>CFBundleSignature</key>\n    <string>????</string>\n    <key>CFBundleShortVersionString</key>\n    <string>1.0.0</string>\n    <key>CFBundleVersion</key>\n    <string>1.0.0</string>\n    <key>NSHumanReadableCopyright</key>\n    <string></string>\n    <key>NSHighResolutionCapable</key>\n    <true/>\n  </dict>\n</plist>\n"@
}

/// The `PkgInfo` contents.
pub open spec fn pkg_info_text() -> Seq<char> {
    "BNDL????"@
}

/// The descriptor files of a bundle: two for macOS, none elsewhere.
pub open spec fn descriptor_files_text(root: Seq<char>, package: Seq<char>, t: Target) -> Seq<(Seq<char>, Seq<char>)> {
    if t == Target::Mac {
        seq![
            (joined_of(root, "Contents/PkgInfo"@), pkg_info_text()),
            (joined_of(root, "Contents/Info.plist"@), info_plist_text(package)),
        ]
    } else {
        seq![]
    }
}

/// The target given, else the host's.
pub open spec fn resolved_target(target: Option<Target>, host: Option<Target>) -> Option<Target> {
    match target {
        Some(t) => Some(t),
        None => host,
    }
}

/// The bundle that an input library at `path` gets.
pub open spec fn bundle_layout(path: Seq<char>, target: Option<Target>, host: Option<Target>) -> Result<BundleLayout, BundleError> {
    match (parent_of(path), file_stem_of(path)) {
        (Some(parent), Some(package)) => match resolved_target(target, host) {
            None => Err(BundleError::UnsupportedHost),
            Some(t) => {
                let root = joined_of(parent, bundle_name(package));
                Ok(BundleLayout {
                    bundle_root: root,
                    library_dir: joined_of(parent, lib_local_dir_text(package, t)),
                    library_path: joined_of(parent, lib_local_path_text(package, t)),
                    descriptor_files: descriptor_files_text(root, package, t),
                })
            },
        },
        _ => Err(BundleError::InvalidPath),
    }
}

/// A path is refused as invalid exactly when it has no parent or no file
/// stem; where it has both and a target is known, it gets a bundle.
pub proof fn lemma_invalid_path_only_without_parent_or_stem(path: Seq<char>, target: Option<Target>, host: Option<Target>)
    ensures
        (bundle_layout(path, target, host) == Err::<BundleLayout, BundleError>(BundleError::InvalidPath))
            <==> (parent_of(path) is None || file_stem_of(path) is None),
        parent_of(path) is Some && file_stem_of(path) is Some && resolved_target(target, host) is Some
            ==> bundle_layout(path, target, host) is Ok,
{
}

/// The target given, else the host's; `UnsupportedHost` where neither is
/// known.
pub fn resolve_target(target: Option<Target>, host: Option<Target>) -> (r: Result<Target, BundleError>)
    ensures
        match resolved_target(target, host) {
            Some(t) => r == Ok::<Target, BundleError>(t),
            None => r == Err::<Target, BundleError>(BundleError::UnsupportedHost),
        },
{
    match target {
        Some(t) => Ok(t),
        None => match host {
            Some(t) => Ok(t),
            None => Err(BundleError::UnsupportedHost),
        },
    }
}

/// The `Info.plist` document of a package.
pub fn info_plist(package: &str) -> (r: String)
    ensures
        r@ == info_plist_text(package@),
{
    let mut s = String::from_str("<?xml version=\"1.0\" encoding=\"UTF-8\"?>\n<!DOCTYPE plist PUBLIC \"-//Apple//DTD PLIST 1.0//EN\" \"http://www.apple.com/DTDs/PropertyList-1.0.dtd\">\n<plist>\n  <dict>\n    <key>CFBundleExecutable</key>\n    <string>");
    s.append(package);
    s.append("</string>\n    <key>CFBundleIconFile</key>\n    <string></string>\n    <key>CFBundleIdentifier</key>\n    <string>com.nih-plug.");
    s.append(package);
    s.append("</string>\n    <key>CFBundleName</key>\n    <string>");
    s.append(package);
    s.append("</string>\n    <key>CFBundleDisplayName</key>\n    <string>");
    s.append(package);
    s.append("</string>\n    <key>CFBundlePackageType</key>\n    <string>BNDL</string>\n    <key>CFBundleSignature</key>\n    <string>????</string>\n    <key>CFBundleShortVersionString</key>\n    <string>1.0.0</string>\n    <key>CFBundleVersion</key>\n    <string>1.0.0</string>\n    <key>NSHumanReadableCopyright</key>\n    <string></string>\n    <key>NSHighResolutionCapable</key>\n    <true/>\n  </dict>\n</plist>\n");
    s
}

impl Vst3 {
    /// The directory under `Contents` for a target.
    fn layout_dir(target: Target) -> (r: &'static str)
        ensures
            r@ == layout_dir(target),
    {
        match target {
            Target::Linux(Arch::X64) => "x86_64-linux",
            Target::Linux(Arch::X86_64) => "i386-linux",
            Target::Mac => "MacOS",
            Target::Windows(Arch::X64) => "x86_64-win",
            Target::Windows(Arch::X86_64) => "x86-win",
        }
    }

    /// The directory of the library, relative to the bundle's parent:
    /// `<package>.vst3/Contents/<layout dir>`.
    pub fn lib_local_dir(package: &str, target: Target) -> (r: String)
        ensures
            r@ == lib_local_dir_text(package@, target),
    {
        let mut s = package.to_owned();
        s.append(".vst3");
        s.append("/Contents/");
        s.append(Vst3::layout_dir(target));
        s
    }

    /// The path of the library, relative to the bundle's parent:
    /// `<package>.vst3/Contents/x86_64-linux/<package>.so` and so on for
    /// each target.
    pub fn lib_local_path(package: &str, target: Target) -> (r: String)
        ensures
            r@ == lib_local_path_text(package@, target),
    {
        let mut s = Vst3::lib_local_dir(package, target);
        s.append("/");
        s.append(package);
        match target {
            Target::Linux(_) => s.append(".so"),
            Target::Mac => {},
            Target::Windows(_) => s.append(".vst3"),
        }
        s
    }

    /// The platform's file name for the compiled library of a package on a
    /// target: `lib<package>.so`, `lib<package>.dylib` or `<package>.dll`.
    /// The architecture plays no part.
    pub fn target_lib_filename(package: &str, target: Target) -> (r: String)
        ensures
            r@ == exported_lib_filename_text(package@, target),
    {
        match target {
            Target::Windows(_) => {
                let mut s = package.to_owned();
                s.append(".dll");
                s
            },
            Target::Mac => {
                let mut s = String::from_str("lib");
                s.append(package);
                s.append(".dylib");
                s
            },
            Target::Linux(_) => {
                let mut s = String::from_str("lib");
                s.append(package);
                s.append(".so");
                s
            },
        }
    }

    /// The platform's file name for the compiled library of a package on a
    /// host operating system (`linux`, `macos` or `windows`, as Rust names
    /// them); `None` for any other.
    pub fn host_lib_filename(package: &str, os: &str) -> (r: Option<String>)
        ensures
            match host_lib_filename_text(package@, os@) {
                Some(n) => r matches Some(x) && x@ == n,
                None => r is None,
            },
    {
        if same_text(os, "linux") {
            Some(Vst3::target_lib_filename(package, Target::Linux(Arch::X64)))
        } else if same_text(os, "macos") {
            Some(Vst3::target_lib_filename(package, Target::Mac))
        } else if same_text(os, "windows") {
            Some(Vst3::target_lib_filename(package, Target::Windows(Arch::X64)))
        } else {
            None
        }
    }

    /// The platform's file name for the compiled library of a package, for
    /// `target` where given, else for the host operating system `host_os`;
    /// `None` where no target is given and the host has no known name.
    pub fn exported_lib_filename(package: &str, target: Option<Target>, host_os: &str) -> (r: Option<String>)
        ensures
            match target {
                Some(t) => r matches Some(x) && x@ == exported_lib_filename_text(package@, t),
                None => match host_lib_filename_text(package@, host_os@) {
                    Some(n) => r matches Some(x) && x@ == n,
                    None => r is None,
                },
            },
    {
        match target {
            Some(t) => Some(Vst3::target_lib_filename(package, t)),
            None => Vst3::host_lib_filename(package, host_os),
        }
    }

    /// Lays out the bundle for the library at `path`: the bundle sits beside
    /// the library and is named after its file stem. `target` is used where
    /// given, else `host`. A bare file name has the empty path as its parent,
    /// so its bundle is laid out relative to the current directory.
    pub fn try_bundle(path: &str, target: Option<Target>, host: Option<Target>) -> (r: Result<BundlePlan, BundleError>)
        ensures
            match r {
                Ok(plan) => bundle_layout(path@, target, host) == Ok::<BundleLayout, BundleError>(plan@),
                Err(e) => bundle_layout(path@, target, host) == Err::<BundleLayout, BundleError>(e),
            },
            is_bare_name(path@) ==> parent_of(path@) == Some(Seq::<char>::empty()),
            is_bare_name(path@) && has_no_dot(path@) && resolved_target(target, host) is Some ==> r is Ok
                && r->Ok_0.bundle_root@ == bundle_name(path@) && r->Ok_0.library_path@
                == lib_local_path_text(path@, resolved_target(target, host)->Some_0),
    {
        let parent = match path_parent(path) {
            Some(p) => p,
            None => {
                return Err(BundleError::InvalidPath);
            },
        };
        let package = match path_file_stem(path) {
            Some(s) => s,
            None => {
                return Err(BundleError::InvalidPath);
            },
        };
        let target = resolve_target(target, host)?;
        let package = package.as_str();
        let mut name = package.to_owned();
        name.append(".vst3");
        let bundle_root = path_join(parent.as_str(), name.as_str());
        let library_dir = path_join(parent.as_str(), Vst3::lib_local_dir(package, target).as_str());
        let library_path = path_join(parent.as_str(), Vst3::lib_local_path(package, target).as_str());
        proof {
            reveal_strlit(".vst3");
            if is_bare_name(path@) && has_no_dot(path@) {
                assert(parent@.len() == 0);
                assert(package@ == path@);
                assert(".vst3"@[0] == '.');
                assert(name@[0] == path@[0]);
                if path@.len() >= 2 {
                    assert(name@[1] == path@[1]);
                } else {
                    assert(name@[1] == ".vst3"@[0]);
                }
                assert(is_plain_relative(name@));
                let local = lib_local_path_text(package@, target);
                assert(local[0] == path@[0]);
                if path@.len() >= 2 {
                    assert(local[1] == path@[1]);
                } else {
                    assert(local[1] == ".vst3"@[0]);
                }
                assert(is_plain_relative(local));
            }
        }
        let mut descriptor_files: Vec<DescriptorFile> = Vec::new();
        if target == Target::Mac {
            descriptor_files.push(DescriptorFile {
                path: path_join(bundle_root.as_str(), "Contents/PkgInfo"),
                contents: String::from_str("BNDL????"),
            });
            descriptor_files.push(DescriptorFile {
                path: path_join(bundle_root.as_str(), "Contents/Info.plist"),
                contents: info_plist(package),
            });
        }
        let plan = BundlePlan { bundle_root, library_dir, library_path, descriptor_files };
        assert(plan@.descriptor_files =~= descriptor_files_text(plan@.bundle_root, package@, target));
        Ok(plan)
    }
}

impl Format {
    /// Lays out the bundle of this format for the library at `path`.
    pub fn try_bundle(&self, path: &str, target: Option<Target>, host: Option<Target>) -> (r: Result<BundlePlan, BundleError>)
        ensures
            match r {
                Ok(plan) => bundle_layout(path@, target, host) == Ok::<BundleLayout, BundleError>(plan@),
                Err(e) => bundle_layout(path@, target, host) == Err::<BundleLayout, BundleError>(e),
            },
    {
        match self {
            Format::Vst3 => Vst3::try_bundle(path, target, host),
        }
    }
}

} // verus!
