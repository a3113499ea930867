//! The installation, and how it is found on each platform.
//!
//! On Windows the registry holds the path of the content folder of the
//! installation. The folder above it is the root of the installation, which
//! holds the executable and the plugins that ship with it. The plugins of the
//! user lie two folders further up.
//!
//! On the Apple desktop the installation is the application bundle under
//! `/Applications`, and the plugins of the user lie under the documents
//! directory.

use crate::error::Error;
use crate::unix_path;
use crate::windows_laws::{
    lemma_absolute_with_parent_has_physical_root, lemma_join_name_absolute,
    lemma_joined_lies_in, lemma_parent_depth, lemma_parent_of_joined,
};
use crate::windows_path;
use vstd::prelude::*;

verus! {

/// The four paths of an installation, as text.
pub struct Locations {
    /// The top directory of the installation.
    pub root: Seq<char>,
    /// The executable.
    pub application: Seq<char>,
    /// The directory of the plugins that ship with the installation.
    pub built_in_plugins: Seq<char>,
    /// The directory of the plugins that the user installed.
    pub plugins: Seq<char>,
}

/// An installation of Roblox Studio that was found. Nothing is known of
/// whether its paths exist on disk.
#[derive(Debug)]
#[must_use]
pub struct RobloxStudio {
    application: String,
    built_in_plugins: String,
    plugins: String,
    root: String,
}

/// The platform family that a lookup is made on.
#[derive(Debug)]
pub enum Platform {
    /// The Windows family, with what reading the value `ContentFolder` of the
    /// key `Software\Roblox\RobloxStudio` of the current user gave.
    Windows(Result<String, std::io::Error>),
    /// The Apple desktop, with what the host answered when it was asked for
    /// the documents directory of the user.
    MacOs(Option<String>),
    /// Any other platform.
    Other,
}

impl View for RobloxStudio {
    type V = Locations;

    closed spec fn view(&self) -> Locations {
        Locations {
            root: self.root@,
            application: self.application@,
            built_in_plugins: self.built_in_plugins@,
            plugins: self.plugins@,
        }
    }
}

impl Locations {
    /// None of the four paths is empty.
    pub open spec fn none_empty(self) -> bool {
        &&& self.root.len() > 0
        &&& self.application.len() > 0
        &&& self.built_in_plugins.len() > 0
        &&& self.plugins.len() > 0
    }

    /// Each of the four paths is an absolute Windows path.
    pub open spec fn absolute_on_windows(self) -> bool {
        &&& windows_path::is_absolute(self.root)
        &&& windows_path::is_absolute(self.application)
        &&& windows_path::is_absolute(self.built_in_plugins)
        &&& windows_path::is_absolute(self.plugins)
    }

    /// Each of the four paths is an absolute Unix path.
    pub open spec fn absolute_on_unix(self) -> bool {
        &&& unix_path::is_absolute(self.root)
        &&& unix_path::is_absolute(self.application)
        &&& unix_path::is_absolute(self.built_in_plugins)
        &&& unix_path::is_absolute(self.plugins)
    }
}

impl RobloxStudio {
    /// Every installation was found in one of the two ways: from a content
    /// folder on Windows, or from a documents directory on the Apple
    /// desktop.
    #[verifier::type_invariant]
    pub closed spec fn found_by_a_lookup(self) -> bool {
        ||| exists|content_folder: Seq<char>| windows_locations(content_folder) == Some(self@)
        ||| exists|documents: Seq<char>| macos_locations(documents) == self@
    }
}

/// The installation that the content folder `content_folder` belongs to, on
/// Windows. There is none where the path does not have three folders above
/// it.
pub open spec fn windows_locations(content_folder: Seq<char>) -> Option<Locations> {
    match windows_path::parent(content_folder) {
        Some(root) => match windows_path::parent(root) {
            Some(versions) => match windows_path::parent(versions) {
                Some(home) => Some(
                    Locations {
                        root,
                        application: windows_path::join_name(root, "RobloxStudioBeta.exe"@),
                        built_in_plugins: windows_path::join_name(root, "BuiltInPlugins"@),
                        plugins: windows_path::join_name(home, "Plugins"@),
                    },
                ),
                None => None,
            },
            None => None,
        },
        None => None,
    }
}

/// The installation on the Apple desktop of a user whose documents directory
/// is `documents`.
pub open spec fn macos_locations(documents: Seq<char>) -> Locations {
    Locations {
        root: "/Applications/RobloxStudio.app"@,
        application: "/Applications/RobloxStudio.app/Contents/MacOS/RobloxStudio"@,
        built_in_plugins: "/Applications/RobloxStudio.app/Contents/Resources/BuiltInPlugins"@,
        plugins: unix_path::join(unix_path::join(documents, "Roblox"@), "Plugins"@),
    }
}

/// What a lookup on Windows comes to when the registry holds
/// `content_folder`.
pub open spec fn content_folder_outcome(content_folder: Seq<char>) -> Result<Locations, Error> {
    match windows_locations(content_folder) {
        Some(locations) => Ok(locations),
        None => Err(Error::MalformedRegistry),
    }
}

/// What a lookup on Windows comes to when reading the registry gave
/// `lookup`.
pub open spec fn registry_outcome(lookup: Result<String, std::io::Error>) -> Result<
    Locations,
    Error,
> {
    match lookup {
        Ok(content_folder) => content_folder_outcome(content_folder@),
        Err(cause) => Err(Error::RegistryError(cause)),
    }
}

/// What a lookup on the Apple desktop comes to when the host answers
/// `documents` for the documents directory.
pub open spec fn documents_outcome(documents: Option<Seq<char>>) -> Result<Locations, Error> {
    match documents {
        Some(directory) => Ok(macos_locations(directory)),
        None => Err(Error::DocumentsDirectoryNotFound),
    }
}

/// The text of a path that may be missing.
pub open spec fn text_of(path: Option<String>) -> Option<Seq<char>> {
    match path {
        Some(text) => Some(text@),
        None => None,
    }
}

/// What a lookup on `platform` comes to.
pub open spec fn lookup_outcome(platform: Platform) -> Result<Locations, Error> {
    match platform {
        Platform::Windows(lookup) => registry_outcome(lookup),
        Platform::MacOs(documents) => documents_outcome(text_of(documents)),
        Platform::Other => Err(Error::PlatformNotSupported),
    }
}

/// `found` is the result that `outcome` describes: the same error, or an
/// installation with the same four paths.
pub open spec fn agrees(found: Result<RobloxStudio, Error>, outcome: Result<Locations, Error>) -> bool {
    match (found, outcome) {
        (Ok(studio), Ok(locations)) => studio@ == locations,
        (Err(error), Err(expected)) => error == expected,
        _ => false,
    }
}

impl RobloxStudio {
    /// Finds the installation on Windows from the content folder that the
    /// registry names. It is found exactly where the path is at least three
    /// names deep; a shorter one is malformed.
    pub fn from_content_folder(content_folder: &str) -> (found: Result<RobloxStudio, Error>)
        ensures
            agrees(found, content_folder_outcome(content_folder@)),
            found is Ok <==> windows_path::depth(content_folder@) >= 3,
            found matches Err(error) ==> error is MalformedRegistry,
    {
        proof {
            lemma_names_are_plain();
            lemma_windows_locations_depth(content_folder@);
        }
        let root = match windows_path::find_parent(content_folder) {
            Some(root) => root,
            None => {
                return Err(Error::MalformedRegistry);
            },
        };
        let versions = match windows_path::find_parent(root.as_str()) {
            Some(versions) => versions,
            None => {
                return Err(Error::MalformedRegistry);
            },
        };
        let home = match windows_path::find_parent(versions.as_str()) {
            Some(home) => home,
            None => {
                return Err(Error::MalformedRegistry);
            },
        };
        let application = windows_path::append_name(root.as_str(), "RobloxStudioBeta.exe");
        let built_in_plugins = windows_path::append_name(root.as_str(), "BuiltInPlugins");
        let plugins = windows_path::append_name(home.as_str(), "Plugins");
        assert(windows_locations(content_folder@) == Some(
            Locations {
                root: root@,
                application: application@,
                built_in_plugins: built_in_plugins@,
                plugins: plugins@,
            },
        ));
        Ok(RobloxStudio { application, built_in_plugins, plugins, root })
    }

    /// Finds the installation on Windows from what reading the registry
    /// gave: a read that failed is reported with its cause.
    pub fn from_registry(lookup: Result<String, std::io::Error>) -> (found: Result<
        RobloxStudio,
        Error,
    >)
        ensures
            agrees(found, registry_outcome(lookup)),
    {
        match lookup {
            Ok(content_folder) => RobloxStudio::from_content_folder(content_folder.as_str()),
            Err(cause) => Err(Error::RegistryError(cause)),
        }
    }

    /// Finds the installation on the Apple desktop from what the host
    /// answered for the documents directory of the user. Without a documents
    /// directory nothing is found, whatever else is known.
    pub fn from_documents_directory(documents: Option<String>) -> (found: Result<
        RobloxStudio,
        Error,
    >)
        ensures
            agrees(found, documents_outcome(text_of(documents))),
            found is Ok <==> documents is Some,
            found matches Err(error) ==> error is DocumentsDirectoryNotFound,
    {
        let root = unix_path::append("/Applications", "RobloxStudio.app");
        let contents = unix_path::append(root.as_str(), "Contents");
        let mac_os = unix_path::append(contents.as_str(), "MacOS");
        let application = unix_path::append(mac_os.as_str(), "RobloxStudio");
        let resources = unix_path::append(contents.as_str(), "Resources");
        let built_in_plugins = unix_path::append(resources.as_str(), "BuiltInPlugins");
        let documents = match documents {
            Some(directory) => directory,
            None => {
                return Err(Error::DocumentsDirectoryNotFound);
            },
        };
        let roblox = unix_path::append(documents.as_str(), "Roblox");
        let plugins = unix_path::append(roblox.as_str(), "Plugins");
        proof {
            lemma_macos_paths_lie_under_root(documents@);
            assert(macos_locations(documents@) == (Locations {
                root: root@,
                application: application@,
                built_in_plugins: built_in_plugins@,
                plugins: plugins@,
            }));
        }
        Ok(RobloxStudio { application, built_in_plugins, plugins, root })
    }

    /// Finds the installation on `platform`, from what the host reported
    /// there. On a platform other than Windows and the Apple desktop nothing
    /// is looked for.
    pub fn locate(platform: Platform) -> (found: Result<RobloxStudio, Error>)
        ensures
            agrees(found, lookup_outcome(platform)),
    {
        match platform {
            Platform::Windows(lookup) => RobloxStudio::from_registry(lookup),
            Platform::MacOs(documents) => RobloxStudio::from_documents_directory(documents),
            Platform::Other => Err(Error::PlatformNotSupported),
        }
    }

    /// The top directory of the installation. What it holds differs between
    /// the platforms: prefer the path of the thing that is wanted.
    #[must_use]
    #[inline]
    pub fn root_path(&self) -> (path: &str)
        ensures
            path@ == self@.root,
            path@.len() > 0,
    {
        proof {
            use_type_invariant(self);
            lemma_found_is_not_empty(self@);
        }
        self.root.as_str()
    }

    /// The path of the executable.
    #[must_use]
    #[inline]
    pub fn application_path(&self) -> (path: &str)
        ensures
            path@ == self@.application,
            path@.len() > 0,
    {
        proof {
            use_type_invariant(self);
            lemma_found_is_not_empty(self@);
        }
        self.application.as_str()
    }

    /// The path of the executable, as a value of its own. It is the same
    /// path as [`RobloxStudio::application_path`] gives.
    #[must_use]
    #[inline]
    pub fn exe_path(&self) -> (path: String)
        ensures
            path@ == self@.application,
            path@.len() > 0,
    {
        self.application_path().to_owned()
    }

    /// The directory of the plugins that ship with the installation.
    #[must_use]
    #[inline]
    pub fn built_in_plugins_path(&self) -> (path: &str)
        ensures
            path@ == self@.built_in_plugins,
            path@.len() > 0,
    {
        proof {
            use_type_invariant(self);
            lemma_found_is_not_empty(self@);
        }
        self.built_in_plugins.as_str()
    }

    /// The directory of the plugins that the user installed.
    #[must_use]
    #[inline]
    pub fn plugins_path(&self) -> (path: &str)
        ensures
            path@ == self@.plugins,
            path@.len() > 0,
    {
        proof {
            use_type_invariant(self);
            lemma_found_is_not_empty(self@);
        }
        self.plugins.as_str()
    }
}

/// On Windows an installation is found exactly where the content folder is
/// at least three names deep: with fewer names the registry is malformed.
pub proof fn lemma_windows_locations_depth(content_folder: Seq<char>)
    ensures
        windows_locations(content_folder) is Some <==> windows_path::depth(content_folder) >= 3,
{
    lemma_parent_depth(content_folder);
    if let Some(root) = windows_path::parent(content_folder) {
        lemma_parent_depth(root);
        if let Some(versions) = windows_path::parent(root) {
            lemma_parent_depth(versions);
        }
    }
}

/// On Windows the four paths are absolute where the content folder is, and
/// none of them is empty, whatever the content folder.
pub proof fn lemma_windows_locations_absolute(content_folder: Seq<char>)
    ensures
        windows_locations(content_folder) matches Some(locations) ==> {
            &&& locations.none_empty()
            &&& windows_path::is_absolute(content_folder) ==> locations.absolute_on_windows()
        },
{
    lemma_names_are_plain();
    lemma_parent_depth(content_folder);
    if let Some(root) = windows_path::parent(content_folder) {
        lemma_parent_depth(root);
        if let Some(versions) = windows_path::parent(root) {
            lemma_parent_depth(versions);
            if let Some(home) = windows_path::parent(versions) {
                if windows_path::is_absolute(content_folder) {
                    lemma_join_name_absolute(root, "RobloxStudioBeta.exe"@);
                    lemma_join_name_absolute(root, "BuiltInPlugins"@);
                    lemma_join_name_absolute(home, "Plugins"@);
                }
            }
        }
    }
}

/// On Windows the executable and the plugins that ship with the installation
/// lie directly in its root: their paths have the prefix and the root of the
/// root's path, and its names and one more. Where the content folder is not
/// verbatim, the root is their parent as it is written. Where the content
/// folder is absolute, the plugins of the user lie directly in the folder two
/// levels above the root.
///
/// This is stated of every content folder but a verbatim one that names a
/// server and no share. When a name is joined to such a path it is written
/// anew with one backslash before each name, and the first name of its body
/// is then read as the share.
pub proof fn lemma_windows_locations_lie_under_root(content_folder: Seq<char>)
    requires
        !windows_path::lacks_share(content_folder),
    ensures
        match windows_locations(content_folder) {
            Some(locations) => {
                &&& windows_path::lies_directly_in(locations.application, locations.root)
                &&& windows_path::names(locations.application).last() == "RobloxStudioBeta.exe"@
                &&& windows_path::lies_directly_in(locations.built_in_plugins, locations.root)
                &&& windows_path::names(locations.built_in_plugins).last() == "BuiltInPlugins"@
                &&& !windows_path::prefix_kind(content_folder).is_verbatim() ==> {
                    &&& windows_path::parent(locations.application) == Some(locations.root)
                    &&& windows_path::parent(locations.built_in_plugins) == Some(locations.root)
                }
                &&& windows_path::is_absolute(content_folder) ==> match windows_path::parent(
                    locations.root,
                ) {
                    Some(versions) => match windows_path::parent(versions) {
                        Some(home) => {
                            &&& windows_path::lies_directly_in(locations.plugins, home)
                            &&& windows_path::names(locations.plugins).last() == "Plugins"@
                        },
                        None => false,
                    },
                    None => false,
                }
            },
            None => true,
        },
{
    lemma_names_are_plain();
    lemma_parent_depth(content_folder);
    if let Some(root) = windows_path::parent(content_folder) {
        lemma_parent_depth(root);
        if let Some(versions) = windows_path::parent(root) {
            lemma_parent_depth(versions);
            if let Some(home) = windows_path::parent(versions) {
                let verbatim = windows_path::prefix_kind(content_folder).is_verbatim();
                if verbatim {
                    lemma_absolute_with_parent_has_physical_root(root);
                } else {
                    lemma_parent_of_joined(root, "RobloxStudioBeta.exe"@);
                    lemma_parent_of_joined(root, "BuiltInPlugins"@);
                }
                lemma_joined_lies_in(root, "RobloxStudioBeta.exe"@);
                lemma_joined_lies_in(root, "BuiltInPlugins"@);
                if windows_path::is_absolute(content_folder) {
                    lemma_absolute_with_parent_has_physical_root(versions);
                    lemma_joined_lies_in(home, "Plugins"@);
                }
            }
        }
    }
}

/// On the Apple desktop the installation and what it holds lie at fixed
/// absolute paths, whatever the documents directory. The plugins of the user
/// lie at an absolute path where the documents directory is one. None of the
/// four paths is empty.
pub proof fn lemma_macos_locations_absolute(documents: Seq<char>)
    ensures
        unix_path::is_absolute(macos_locations(documents).root),
        unix_path::is_absolute(macos_locations(documents).application),
        unix_path::is_absolute(macos_locations(documents).built_in_plugins),
        unix_path::is_absolute(documents) ==> macos_locations(documents).absolute_on_unix(),
        macos_locations(documents).none_empty(),
{
    reveal_strlit("/Applications/RobloxStudio.app");
    reveal_strlit("/Applications/RobloxStudio.app/Contents/MacOS/RobloxStudio");
    reveal_strlit("/Applications/RobloxStudio.app/Contents/Resources/BuiltInPlugins");
    reveal_strlit("Roblox");
    reveal_strlit("Plugins");
}

/// On the Apple desktop the executable and the plugins that ship with the
/// installation lie under its root, inside the `Contents` of the bundle.
pub proof fn lemma_macos_paths_lie_under_root(documents: Seq<char>)
    ensures
        macos_locations(documents).root == unix_path::join(
            "/Applications"@,
            "RobloxStudio.app"@,
        ),
        macos_locations(documents).application == unix_path::join(
            unix_path::join(
                unix_path::join(macos_locations(documents).root, "Contents"@),
                "MacOS"@,
            ),
            "RobloxStudio"@,
        ),
        macos_locations(documents).built_in_plugins == unix_path::join(
            unix_path::join(
                unix_path::join(macos_locations(documents).root, "Contents"@),
                "Resources"@,
            ),
            "BuiltInPlugins"@,
        ),
{
    reveal_strlit("/Applications");
    reveal_strlit("RobloxStudio.app");
    reveal_strlit("Contents");
    reveal_strlit("MacOS");
    reveal_strlit("RobloxStudio");
    reveal_strlit("Resources");
    reveal_strlit("BuiltInPlugins");
    reveal_strlit("/Applications/RobloxStudio.app");
    reveal_strlit("/Applications/RobloxStudio.app/Contents/MacOS/RobloxStudio");
    reveal_strlit("/Applications/RobloxStudio.app/Contents/Resources/BuiltInPlugins");
    let root = unix_path::join("/Applications"@, "RobloxStudio.app"@);
    let contents = unix_path::join(root, "Contents"@);
    assert(unix_path::join(unix_path::join(contents, "MacOS"@), "RobloxStudio"@)
        =~= "/Applications/RobloxStudio.app/Contents/MacOS/RobloxStudio"@);
    assert(unix_path::join(unix_path::join(contents, "Resources"@), "BuiltInPlugins"@)
        =~= "/Applications/RobloxStudio.app/Contents/Resources/BuiltInPlugins"@);
}

/// A lookup is determined by what it meets: two lookups on the same
/// platform, of which the host reported the same, come to the same error or
/// to the same four paths.
pub proof fn lemma_lookup_is_determined(
    platform: Platform,
    first: Result<RobloxStudio, Error>,
    second: Result<RobloxStudio, Error>,
)
    requires
        agrees(first, lookup_outcome(platform)),
        agrees(second, lookup_outcome(platform)),
    ensures
        match (first, second) {
            (Ok(one), Ok(other)) => one@ == other@,
            (Err(one), Err(other)) => one == other,
            _ => false,
        },
{
}

/// None of the paths of an installation that was found is empty.
proof fn lemma_found_is_not_empty(locations: Locations)
    requires
        (exists|content_folder: Seq<char>| windows_locations(content_folder) == Some(locations))
            || (exists|documents: Seq<char>| macos_locations(documents) == locations),
    ensures
        locations.none_empty(),
{
    if exists|content_folder: Seq<char>| windows_locations(content_folder) == Some(locations) {
        let content_folder = choose|content_folder: Seq<char>|
            windows_locations(content_folder) == Some(locations);
        lemma_windows_locations_absolute(content_folder);
    } else {
        let documents = choose|documents: Seq<char>| macos_locations(documents) == locations;
        lemma_macos_locations_absolute(documents);
    }
}

/// The three names that are joined to Windows paths are plain names.
proof fn lemma_names_are_plain()
    ensures
        windows_path::is_plain_name("RobloxStudioBeta.exe"@),
        windows_path::is_plain_name("BuiltInPlugins"@),
        windows_path::is_plain_name("Plugins"@),
{
    reveal_strlit("RobloxStudioBeta.exe");
    reveal_strlit("BuiltInPlugins");
    reveal_strlit("Plugins");
    lemma_letters_and_dots_do_not_separate("RobloxStudioBeta.exe"@);
    lemma_letters_and_dots_do_not_separate("BuiltInPlugins"@);
    lemma_letters_and_dots_do_not_separate("Plugins"@);
}

/// A name of letters and dots holds no separator.
proof fn lemma_letters_and_dots_do_not_separate(name: Seq<char>)
    requires
        forall|i: int|
            0 <= i < name.len() ==> windows_path::is_drive_letter(#[trigger] name[i]) || name[i]
                == '.',
    ensures
        forall|i: int| 0 <= i < name.len() ==> !windows_path::is_separator(#[trigger] name[i]),
{
}

} // verus!
