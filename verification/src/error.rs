//! Why a lookup failed.

use vstd::prelude::*;
use vstd::string::*;

verus! {

/// `std::io::Error`, the error of the operating system that a failed
/// registry read reports. It is carried through as it is: nothing is claimed
/// of what it holds.
#[verifier::external_type_specification]
#[verifier::external_body]
pub struct ExIoError(std::io::Error);

/// The ways in which a lookup fails.
#[derive(Debug)]
pub enum Error {
    /// The host names no documents directory for the user.
    DocumentsDirectoryNotFound,
    /// The registry value is there, but too short a path to lead to the
    /// installation.
    MalformedRegistry,
    /// No installation is looked for on this platform.
    PlatformNotSupported,
    /// The registry key or its value could not be read.
    RegistryError(std::io::Error),
}

/// The message of a failed registry read whose cause reads `detail`.
pub open spec fn registry_error_text(detail: Seq<char>) -> Seq<char> {
    "Couldn't find registry keys, Roblox might not be installed. ("@ + detail + ")"@
}

/// The message of a failed registry read whose cause reads `detail`.
pub fn registry_error_message(detail: &str) -> (text: String)
    ensures
        text@ == registry_error_text(detail@),
{
    let mut text = "Couldn't find registry keys, Roblox might not be installed. (".to_owned();
    text.append(detail);
    text.append(")");
    text
}

impl Error {
    /// The message for a reader. That of a failed registry read ends with
    /// the cause as it prints itself, in brackets.
    pub fn message(&self) -> (text: String)
        ensures
            match *self {
                Error::DocumentsDirectoryNotFound => text@ == "Couldn't find Documents directory"@,
                Error::MalformedRegistry => text@
                    == "The values of the registry keys used to find Roblox are malformed, maybe your Roblox installation is corrupt?"@,
                Error::PlatformNotSupported => text@ == "Your platform is not currently supported"@,
                Error::RegistryError(cause) => exists|detail: String| #[trigger]
                    to_string_from_display_ensures::<std::io::Error>(&cause, detail) && text@
                        == registry_error_text(detail@),
            },
    {
        match self {
            Error::DocumentsDirectoryNotFound => "Couldn't find Documents directory".to_owned(),
            Error::MalformedRegistry => "The values of the registry keys used to find Roblox are malformed, maybe your Roblox installation is corrupt?".to_owned(),
            Error::PlatformNotSupported => "Your platform is not currently supported".to_owned(),
            Error::RegistryError(cause) => {
                let detail = cause.to_string();
                let text = registry_error_message(detail.as_str());
                assert(to_string_from_display_ensures::<std::io::Error>(cause, detail));
                text
            },
        }
    }

    /// The error underneath this one: the operating system's, for a failed
    /// registry read, and none for the others.
    pub fn source(&self) -> (cause: Option<&std::io::Error>)
        ensures
            match *self {
                Error::RegistryError(inner) => cause == Some(&inner),
                _ => cause is None,
            },
    {
        match self {
            Error::RegistryError(inner) => Some(inner),
            _ => None,
        }
    }
}

} // verus!
