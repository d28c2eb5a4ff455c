//! The configuration of the server: where it is looked for, what it holds,
//! and how a directory that it names is checked.
//!
//! Nothing here touches the file system. Whoever calls hands over the paths
//! as text and the probes as functions: whether a path is a file, what a
//! file holds, what the canonical form of a path is.

use vstd::prelude::*;
use vstd::string::StringExecFns;

verus! {

#[verifier::external_type_specification]
#[verifier::external_body]
pub struct ExIoError(std::io::Error);

#[verifier::external_type_specification]
#[verifier::external_body]
pub struct ExJsonError(serde_json::Error);

/// The name that the configuration file has unless another is asked for.
pub const DEFAULT_CONFIGURATION_FILENAME: &'static str = "server_configuration.json";

/// An address of the internet protocol, version 4 or 6, in its groups.
#[derive(Clone, Copy, Debug, PartialEq, Eq)]
pub enum IpAddress {
    V4([u8; 4]),
    V6([u16; 8]),
}

/// The address that the server binds to where the configuration names
/// none: the local host, `::1`.
pub fn default_address() -> (address: IpAddress)
    ensures
        address matches IpAddress::V6(groups) && groups@ == seq![0u16, 0, 0, 0, 0, 0, 0, 1],
{
    let groups: [u16; 8] = [0, 0, 0, 0, 0, 0, 0, 1];
    assert(groups@ =~= seq![0u16, 0, 0, 0, 0, 0, 0, 1]);
    IpAddress::V6(groups)
}

/// What a configuration file holds.
#[derive(Debug)]
pub struct ConfigurationPrototype {
    /// Where the static content is to be found; relative paths start at the
    /// directory of the configuration file.
    pub base_directory: String,
    /// Which address to bind to.
    pub address: IpAddress,
    /// Which port the server is to listen on.
    pub port: u16,
}

/// What can go wrong on the way to a configuration.
#[derive(Debug)]
pub enum ConfigurationError {
    /// No configuration file was found.
    NotFound,
    /// The path of the configuration file has no directory above it.
    InvalidPath,
    /// The file could not be read.
    IoError(std::io::Error),
    /// The file does not hold a configuration.
    SerdeError(serde_json::Error),
}

impl vstd::std_specs::convert::FromSpecImpl<std::io::Error> for ConfigurationError {
    open spec fn obeys_from_spec() -> bool {
        true
    }

    open spec fn from_spec(e: std::io::Error) -> ConfigurationError {
        ConfigurationError::IoError(e)
    }
}

impl From<std::io::Error> for ConfigurationError {
    fn from(e: std::io::Error) -> (error: ConfigurationError) {
        ConfigurationError::IoError(e)
    }
}

impl vstd::std_specs::convert::FromSpecImpl<serde_json::Error> for ConfigurationError {
    open spec fn obeys_from_spec() -> bool {
        true
    }

    open spec fn from_spec(e: serde_json::Error) -> ConfigurationError {
        ConfigurationError::SerdeError(e)
    }
}

impl From<serde_json::Error> for ConfigurationError {
    fn from(e: serde_json::Error) -> (error: ConfigurationError) {
        ConfigurationError::SerdeError(e)
    }
}

/// A place where the configuration file may be.
#[derive(Debug)]
pub struct Candidate {
    /// The path of the file.
    pub path: String,
    /// The directory that holds the file, if the path has one above it.
    pub directory: Option<String>,
}

/// A configuration and where it was found.
#[derive(Debug)]
pub struct Configuration {
    /// What the configuration file holds.
    proto: ConfigurationPrototype,
    /// The directory in which the configuration file was found.
    config_directory: String,
    /// The path of the configuration file.
    config_path: String,
}

/// A configuration as the contracts see it.
pub struct ConfigurationView {
    pub base_directory: Seq<char>,
    pub address: IpAddress,
    pub port: u16,
    pub config_directory: Seq<char>,
    pub config_path: Seq<char>,
}

/// The configuration that `proto` makes when it is found at `path` in
/// `directory`.
pub open spec fn configuration_at(
    proto: ConfigurationPrototype,
    directory: Seq<char>,
    path: Seq<char>,
) -> ConfigurationView {
    ConfigurationView {
        base_directory: proto.base_directory@,
        address: proto.address,
        port: proto.port,
        config_directory: directory,
        config_path: path,
    }
}

/// Whether `found` is what loading the file at `candidate` with `load`
/// comes to.
pub open spec fn loaded_from<L: FnOnce(&String) -> Result<
    ConfigurationPrototype,
    ConfigurationError,
>>(candidate: Candidate, load: L, found: Result<ConfigurationView, ConfigurationError>) -> bool {
    match candidate.directory {
        None => found == Err::<ConfigurationView, ConfigurationError>(
            ConfigurationError::InvalidPath,
        ),
        Some(directory) => match found {
            Ok(configuration) => exists|proto: ConfigurationPrototype|
                #![trigger configuration_at(proto, directory@, candidate.path@)]
                call_ensures(load, (&candidate.path,), Ok(proto)) && configuration
                    == configuration_at(proto, directory@, candidate.path@),
            Err(error) => call_ensures(load, (&candidate.path,), Err(error)),
        },
    }
}

/// Whether `found` is the first of `candidates` that `is_file` took for a
/// file, after it took none of those before for one; or nothing, after it
/// took none at all for one.
pub open spec fn first_file<P: Fn(&String) -> bool>(
    candidates: Seq<Candidate>,
    is_file: P,
    found: Option<int>,
) -> bool {
    match found {
        Some(index) => {
            &&& 0 <= index < candidates.len()
            &&& call_ensures(is_file, (&candidates[index].path,), true)
            &&& forall|earlier: int|
                0 <= earlier < index ==> call_ensures(
                    is_file,
                    (&(#[trigger] candidates[earlier]).path,),
                    false,
                )
        },
        None => forall|any: int|
            0 <= any < candidates.len() ==> call_ensures(
                is_file,
                (&(#[trigger] candidates[any]).path,),
                false,
            ),
    }
}

/// Whether `path` is what `join` and `canonicalize` make of the directory
/// of the static content of `configuration`: the canonical form of the
/// joined path, or the joined path itself where it has none.
pub open spec fn static_directory<J: FnOnce(&str, &str) -> String, C: FnOnce(&String) -> Option<
    String,
>>(configuration: ConfigurationView, join: J, canonicalize: C, path: String) -> bool {
    exists|directory: &str, base: &str, joined: String|
        {
            &&& directory@ == configuration.config_directory
            &&& base@ == configuration.base_directory
            &&& #[trigger] call_ensures(join, (directory, base), joined)
            &&& {
                ||| call_ensures(canonicalize, (&joined,), Some(path))
                ||| (call_ensures(canonicalize, (&joined,), None) && path == joined)
            }
        }
}

/// The view that a configuration or an error has in contracts.
pub open spec fn outcome_view(found: Result<Configuration, ConfigurationError>) -> Result<
    ConfigurationView,
    ConfigurationError,
> {
    match found {
        Ok(configuration) => Ok(configuration@),
        Err(error) => Err(error),
    }
}

impl View for Configuration {
    type V = ConfigurationView;

    closed spec fn view(&self) -> ConfigurationView {
        configuration_at(self.proto, self.config_directory@, self.config_path@)
    }
}

impl Configuration {
    /// Finds the configuration file among `candidates` and loads it.
    ///
    /// The candidates are the places to look at, nearest first: the file in
    /// the directory to start from, then in each directory above it. The
    /// first that `is_file` takes for a file is loaded; `NotFound` is the
    /// answer where there is none.
    pub fn from_directory_or_ancestors<P, L>(candidates: Vec<Candidate>, is_file: P, load: L) -> (found:
        Result<Configuration, ConfigurationError>) where
        P: Fn(&String) -> bool,
        L: FnOnce(&String) -> Result<ConfigurationPrototype, ConfigurationError>,

        requires
            forall|path: &String| call_requires(is_file, (path,)),
            forall|path: &String| call_requires(load, (path,)),
        ensures
            match found {
                Err(ConfigurationError::NotFound) => first_file(candidates@, is_file, None)
                    || exists|index: int|
                    #![trigger candidates@[index]]
                    first_file(candidates@, is_file, Some(index)) && loaded_from(
                        candidates@[index],
                        load,
                        outcome_view(found),
                    ),
                _ => exists|index: int|
                    #![trigger candidates@[index]]
                    first_file(candidates@, is_file, Some(index)) && loaded_from(
                        candidates@[index],
                        load,
                        outcome_view(found),
                    ),
            },
    {
        let mut candidates = candidates;
        let ghost all = candidates@;
        match Self::find_configuration_file(&candidates, is_file) {
            None => Err(ConfigurationError::NotFound),
            Some(index) => {
                let candidate = candidates.swap_remove(index);
                assert(candidate == all[index as int]);
                Self::from_file(candidate, load)
            },
        }
    }

    /// Loads the configuration from the file at `candidate`.
    ///
    /// A path without a directory above it is refused with `InvalidPath`,
    /// and the file is not looked at. Else `load` reads the file; what it
    /// reports as an error is handed on.
    pub fn from_file<L>(candidate: Candidate, load: L) -> (found: Result<
        Configuration,
        ConfigurationError,
    >) where L: FnOnce(&String) -> Result<ConfigurationPrototype, ConfigurationError>
        requires
            call_requires(load, (&candidate.path,)),
        ensures
            loaded_from(candidate, load, outcome_view(found)),
    {
        let Candidate { path, directory } = candidate;
        match directory {
            None => Err(ConfigurationError::InvalidPath),
            Some(config_directory) => match load(&path) {
                Ok(proto) => {
                    let configuration = Configuration {
                        proto,
                        config_directory,
                        config_path: path,
                    };
                    assert(configuration@ == configuration_at(proto, config_directory@, path@));
                    Ok(configuration)
                },
                Err(error) => Err(error),
            },
        }
    }

    /// Finds the configuration file among `candidates`, which are looked at
    /// in their order: the index of the first that `is_file` takes for a
    /// file.
    pub fn find_configuration_file<P>(candidates: &Vec<Candidate>, is_file: P) -> (found: Option<
        usize,
    >) where P: Fn(&String) -> bool
        requires
            forall|path: &String| call_requires(is_file, (path,)),
        ensures
            first_file(
                candidates@,
                is_file,
                match found {
                    Some(index) => Some(index as int),
                    None => None,
                },
            ),
    {
        let mut next: usize = 0;
        while next < candidates.len()
            invariant
                next <= candidates.len(),
                forall|path: &String| call_requires(is_file, (path,)),
                forall|earlier: int|
                    0 <= earlier < next ==> call_ensures(
                        is_file,
                        (&(#[trigger] candidates@[earlier]).path,),
                        false,
                    ),
            decreases candidates.len() - next,
        {
            if is_file(&candidates[next].path) {
                return Some(next);
            }
            next = next + 1;
        }
        None
    }

    /// The port to listen on.
    pub fn port(&self) -> (port: u16)
        ensures
            port == self@.port,
    {
        self.proto.port
    }

    /// The address to bind to.
    pub fn address(&self) -> (address: IpAddress)
        ensures
            address == self@.address,
    {
        self.proto.address
    }

    /// The address and the port to bind to.
    pub fn socket(&self) -> (socket: (IpAddress, u16))
        ensures
            socket == (self@.address, self@.port),
    {
        (self.address(), self.port())
    }

    /// The directory of the static content, as the configuration file
    /// names it.
    pub fn base_directory(&self) -> (path: &str)
        ensures
            path@ == self@.base_directory,
    {
        self.proto.base_directory.as_str()
    }

    /// The directory of the static content, in canonical form where it has
    /// one.
    ///
    /// `join` resolves the directory that the configuration names against
    /// the directory of the configuration file, and `canonicalize` puts the
    /// result in canonical form. Where it cannot, the joined path is the
    /// answer as it is.
    pub fn static_file_directory<J, C>(&self, join: J, canonicalize: C) -> (path: String) where
        J: FnOnce(&str, &str) -> String,
        C: FnOnce(&String) -> Option<String>,

        requires
            forall|directory: &str, base: &str| call_requires(join, (directory, base)),
            forall|joined: &String| call_requires(canonicalize, (joined,)),
        ensures
            static_directory(self@, join, canonicalize, path),
    {
        let joined = join(self.config_directory.as_str(), self.proto.base_directory.as_str());
        match canonicalize(&joined) {
            Some(canonical) => canonical,
            None => joined,
        }
    }

    /// The directory in which the configuration file was found. Relative
    /// paths of the configuration start there.
    pub fn configuration_directory(&self) -> (path: &str)
        ensures
            path@ == self@.config_directory,
    {
        self.config_directory.as_str()
    }

    /// The path of the configuration file.
    pub fn configuration_file_path(&self) -> (path: &str)
        ensures
            path@ == self@.config_path,
    {
        self.config_path.as_str()
    }
}

/// Why a path does not lead to a directory.
#[derive(Debug)]
pub enum DirectoryError {
    /// The path could not be put in canonical form.
    Io(std::io::Error),
    /// The path leads to something that is no directory; its canonical form
    /// goes along.
    NotADirectory(String),
}

/// What `canonicalize_and_verify_directory` may answer for `path`.
pub open spec fn verified_directory<C: FnOnce(&str) -> Result<String, std::io::Error>, D: FnOnce(
    &String,
) -> bool>(path: &str, canonicalize: C, is_directory: D, found: Result<String, DirectoryError>) -> bool {
    match found {
        Ok(directory) => call_ensures(canonicalize, (path,), Ok(directory)) && call_ensures(
            is_directory,
            (&directory,),
            true,
        ),
        Err(DirectoryError::Io(error)) => call_ensures(canonicalize, (path,), Err(error)),
        Err(DirectoryError::NotADirectory(other)) => call_ensures(canonicalize, (path,), Ok(other))
            && call_ensures(is_directory, (&other,), false),
    }
}

/// Puts `path` in canonical form and makes sure that it leads to a
/// directory.
///
/// The error of `canonicalize` is handed on, and the directory is then not
/// looked at. A canonical path that `is_directory` does not take for a
/// directory is refused with `NotADirectory`.
pub fn canonicalize_and_verify_directory<C, D>(path: &str, canonicalize: C, is_directory: D) -> (found:
    Result<String, DirectoryError>) where
    C: FnOnce(&str) -> Result<String, std::io::Error>,
    D: FnOnce(&String) -> bool,

    requires
        call_requires(canonicalize, (path,)),
        forall|directory: &String| call_requires(is_directory, (directory,)),
    ensures
        verified_directory(path, canonicalize, is_directory, found),
{
    match canonicalize(path) {
        Err(error) => Err(DirectoryError::Io(error)),
        Ok(directory) => {
            if is_directory(&directory) {
                Ok(directory)
            } else {
                Err(DirectoryError::NotADirectory(directory))
            }
        },
    }
}

/// What there is to say of a path that leads to no directory.
pub fn not_a_directory_message(directory: &str) -> (message: String)
    ensures
        message@ == directory@ + " is not a directory"@,
{
    let mut message = String::from_str(directory);
    message.append(" is not a directory");
    message
}

} // verus!
