//! The update channel: what a release manifest announces, and whether it is
//! an update.

use crate::json::{json_as_str, json_get, JsonValue};
use crate::text::{
    contains, contains_text, last_segment, replace, replaced, rsplit_last, trim_start_matches,
    trimmed_start,
};
use vstd::prelude::*;
use vstd::string::*;

verus! {

/// Why a signed archive was refused.
#[derive(Clone, Copy, Debug, PartialEq, Eq, Structural)]
pub enum SignatureError {
    InvalidEncoding,
    InvalidSignature,
    IoError,
    UnexpectedAlgorithm,
    UnexpectedKeyId,
    UnsupportedAlgorithm,
}

/// Why a text was refused as base64.
#[derive(Clone, Copy, Debug, PartialEq, Eq, Structural)]
pub enum Base64Error {
    /// A byte that is no base64 symbol, and where it stands.
    InvalidByte(usize, u8),
    /// The length is that of no base64 text.
    InvalidLength,
    /// The last symbol holds bits that belong to no byte, and where it
    /// stands.
    InvalidLastSymbol(usize, u8),
}

/// What can go wrong with an update.
#[derive(Clone, Debug, PartialEq, Eq)]
pub enum Error {
    /// A file could not be read or written; the cause in words.
    Io(String),
    /// The signature of the archive did not verify.
    Minisign(SignatureError),
    /// The public key or the signature is no base64.
    Base64(Base64Error),
    /// The public key or the signature is no text.
    Utf8,
    /// The body of an answer could not be read; the cause in words.
    TauriApi(String),
    /// The server could not be reached, or answered with a failure.
    Network(String),
    /// The release manifest lacks something.
    RemoteMetadata(String),
    /// The updater was not set up completely.
    Builder(String),
    /// The updater does not know this platform.
    UnsupportedPlatform,
    /// A public key is configured and the release announces no signature.
    PubkeyButNoSignature,
    /// There is no error, and nothing newer than what runs.
    UpToDate,
}

/// A release as a manifest announces it.
#[derive(Debug, PartialEq, Eq)]
pub struct RemoteRelease {
    /// Version to install
    pub version: String,
    /// Release date
    pub date: String,
    /// Download URL for current platform
    pub download_url: String,
    /// Update short description
    pub body: Option<String>,
    /// Optional signature for the current platform
    pub signature: Option<String>,
}

/// A release, by the characters of its texts.
pub struct RemoteReleaseView {
    pub version: Seq<char>,
    pub date: Seq<char>,
    pub download_url: Seq<char>,
    pub body: Option<Seq<char>>,
    pub signature: Option<Seq<char>>,
}

/// The characters of an optional text.
pub open spec fn option_view(text: Option<String>) -> Option<Seq<char>> {
    match text {
        Some(t) => Some(t@),
        None => None,
    }
}

impl View for RemoteRelease {
    type V = RemoteReleaseView;

    open spec fn view(&self) -> RemoteReleaseView {
        RemoteReleaseView {
            version: self.version@,
            date: self.date@,
            download_url: self.download_url@,
            body: option_view(self.body),
            signature: option_view(self.signature),
        }
    }
}

/// The text of member `key` where it is there: what the member says if it
/// is a string, and `default` if it is anything else.
pub open spec fn member_text_or(value: JsonValue, key: Seq<char>, default: Seq<char>) -> Option<
    Seq<char>,
> {
    match json_get(value, key) {
        Some(member) => match json_as_str(member) {
            Some(text) => Some(text),
            None => Some(default),
        },
        None => None,
    }
}

/// The version that a manifest announces: its `version`, or without one its
/// `name`, either without leading `v`s. The error says which of the two is
/// missing or no string.
pub open spec fn release_version(release: JsonValue) -> Result<Seq<char>, Seq<char>> {
    match json_get(release, "version"@) {
        Some(version) => match json_as_str(version) {
            Some(text) => Ok(trimmed_start(text, 'v')),
            None => Err("Unable to extract `version` from remote server"@),
        },
        None => match json_get(release, "name"@) {
            Some(name) => match json_as_str(name) {
                Some(text) => Ok(trimmed_start(text, 'v')),
                None => Err("Unable to extract `name` from remote server`"@),
            },
            None => Err("Release missing `name` and `version`"@),
        },
    }
}

/// The download address that `holder` announces in its member `url`.
pub open spec fn release_url(holder: JsonValue) -> Result<Seq<char>, Seq<char>> {
    match json_get(holder, "url"@) {
        Some(url) => match json_as_str(url) {
            Some(text) => Ok(text),
            None => Err("Unable to extract `url` from remote server`"@),
        },
        None => Err("Release missing `url`"@),
    }
}

/// The release that a manifest announces for `target`, or the reason why it
/// announces none.
///
/// A manifest with a member `platforms` announces every platform, each with
/// its own address and signature under its name; one without announces the
/// address and the signature of one platform at its top level. Either way
/// the version, the date (`N/A` where none is given) and the notes stand at
/// the top level.
pub open spec fn release_of(release: JsonValue, target: Seq<char>) -> Result<
    RemoteReleaseView,
    Seq<char>,
> {
    match release_version(release) {
        Err(reason) => Err(reason),
        Ok(version) => {
            let date = match member_text_or(release, "pub_date"@, "N/A"@) {
                Some(date) => date,
                None => "N/A"@,
            };
            let body = member_text_or(release, "notes"@, ""@);
            match json_get(release, "platforms"@) {
                Some(platforms) => match json_get(platforms, target) {
                    Some(data) => match release_url(data) {
                        Ok(download_url) => Ok(
                            RemoteReleaseView {
                                version,
                                date,
                                download_url,
                                body,
                                signature: member_text_or(data, "signature"@, ""@),
                            },
                        ),
                        Err(reason) => Err(reason),
                    },
                    None => Err("Platform not available"@),
                },
                None => match release_url(release) {
                    Ok(download_url) => Ok(
                        RemoteReleaseView {
                            version,
                            date,
                            download_url,
                            body,
                            signature: member_text_or(release, "signature"@, ""@),
                        },
                    ),
                    Err(reason) => Err(reason),
                },
            }
        },
    }
}

/// Reads the text of member `key`, with `default` for a member that is no
/// string.
fn member_or(value: &JsonValue, key: &str, default: &str) -> (text: Option<String>)
    ensures
        option_view(text) == member_text_or(*value, key@, default@),
{
    match value.get(key) {
        Some(member) => match member.as_str() {
            Some(text) => Some(String::from_str(text)),
            None => Some(String::from_str(default)),
        },
        None => None,
    }
}

/// Reads the download address that `holder` announces.
fn url_of(holder: &JsonValue) -> (r: Result<String, Error>)
    ensures
        match (r, release_url(*holder)) {
            (Ok(url), Ok(text)) => url@ == text,
            (Err(Error::RemoteMetadata(reason)), Err(text)) => reason@ == text,
            _ => false,
        },
{
    match holder.get("url") {
        Some(url) => match url.as_str() {
            Some(text) => Ok(String::from_str(text)),
            None => Err(
                Error::RemoteMetadata(
                    String::from_str("Unable to extract `url` from remote server`"),
                ),
            ),
        },
        None => Err(Error::RemoteMetadata(String::from_str("Release missing `url`"))),
    }
}

/// Reads the version that a manifest announces.
fn version_of(release: &JsonValue) -> (r: Result<String, Error>)
    ensures
        match (r, release_version(*release)) {
            (Ok(version), Ok(text)) => version@ == text,
            (Err(Error::RemoteMetadata(reason)), Err(text)) => reason@ == text,
            _ => false,
        },
{
    match release.get("version") {
        Some(version) => match version.as_str() {
            Some(text) => Ok(String::from_str(trim_start_matches(text, 'v'))),
            None => Err(
                Error::RemoteMetadata(
                    String::from_str("Unable to extract `version` from remote server"),
                ),
            ),
        },
        None => match release.get("name") {
            Some(name) => match name.as_str() {
                Some(text) => Ok(String::from_str(trim_start_matches(text, 'v'))),
                None => Err(
                    Error::RemoteMetadata(
                        String::from_str("Unable to extract `name` from remote server`"),
                    ),
                ),
            },
            None => Err(
                Error::RemoteMetadata(String::from_str("Release missing `name` and `version`")),
            ),
        },
    }
}

impl RemoteRelease {
    /// Reads the release that a manifest announces for `target`.
    ///
    /// Succeeds exactly when the manifest names a version (or, without one,
    /// a name) and an address for `target`, both as strings; otherwise the
    /// error carries the reason in words.
    pub fn from_release(release: &JsonValue, target: &str) -> (r: Result<RemoteRelease, Error>)
        ensures
            match (r, release_of(*release, target@)) {
                (Ok(found), Ok(announced)) => found@ == announced,
                (Err(Error::RemoteMetadata(reason)), Err(text)) => reason@ == text,
                _ => false,
            },
    {
        let version = match version_of(release) {
            Ok(version) => version,
            Err(e) => {
                return Err(e);
            },
        };
        let date = match member_or(release, "pub_date", "N/A") {
            Some(date) => date,
            None => String::from_str("N/A"),
        };
        let body = member_or(release, "notes", "");
        let mut signature = member_or(release, "signature", "");
        let download_url;
        match release.get("platforms") {
            Some(platforms) => {
                if let Some(current_target_data) = platforms.get(target) {
                    signature = member_or(current_target_data, "signature", "");
                    download_url = match url_of(current_target_data) {
                        Ok(url) => url,
                        Err(e) => {
                            return Err(e);
                        },
                    };
                } else {
                    return Err(Error::RemoteMetadata(String::from_str("Platform not available")));
                }
            },
            None => {
                download_url = match url_of(release) {
                    Ok(url) => url,
                    Err(e) => {
                        return Err(e);
                    },
                };
            },
        }
        Ok(RemoteRelease { version, date, download_url, body, signature })
    }
}

/// The text of an error: a fixed sentence, followed by the cause where the
/// error carries one.
pub open spec fn error_text(error: Error) -> Seq<char> {
    error_text_of(error@)
}

/// The name of a signature error.
pub open spec fn signature_error_text(e: SignatureError) -> Seq<char> {
    match e {
        SignatureError::InvalidEncoding => "InvalidEncoding"@,
        SignatureError::InvalidSignature => "InvalidSignature"@,
        SignatureError::IoError => "IoError"@,
        SignatureError::UnexpectedAlgorithm => "UnexpectedAlgorithm"@,
        SignatureError::UnexpectedKeyId => "UnexpectedKeyId"@,
        SignatureError::UnsupportedAlgorithm => "UnsupportedAlgorithm"@,
    }
}

/// The name of a base64 error.
pub open spec fn base64_error_text(e: Base64Error) -> Seq<char> {
    match e {
        Base64Error::InvalidByte(_, _) => "invalid byte"@,
        Base64Error::InvalidLength => "invalid length"@,
        Base64Error::InvalidLastSymbol(_, _) => "invalid last symbol"@,
    }
}

impl Error {
    /// The error in words.
    pub fn message(&self) -> (text: String)
        ensures
            text@ == error_text(*self),
    {
        match self {
            Error::Io(cause) => cause.clone(),
            Error::Minisign(e) => String::from_str("Verify signature error: ").concat(
                match e {
                    SignatureError::InvalidEncoding => "InvalidEncoding",
                    SignatureError::InvalidSignature => "InvalidSignature",
                    SignatureError::IoError => "IoError",
                    SignatureError::UnexpectedAlgorithm => "UnexpectedAlgorithm",
                    SignatureError::UnexpectedKeyId => "UnexpectedKeyId",
                    SignatureError::UnsupportedAlgorithm => "UnsupportedAlgorithm",
                },
            ),
            Error::Base64(e) => String::from_str("Signature decoding error: ").concat(
                match e {
                    Base64Error::InvalidByte(_, _) => "invalid byte",
                    Base64Error::InvalidLength => "invalid length",
                    Base64Error::InvalidLastSymbol(_, _) => "invalid last symbol",
                },
            ),
            Error::Utf8 => String::from_str("Signature encoding error"),
            Error::TauriApi(cause) => String::from_str("Tauri API error: ").concat(cause.as_str()),
            Error::Network(cause) => String::from_str("Network error: ").concat(cause.as_str()),
            Error::RemoteMetadata(cause) => String::from_str("Remote JSON error: ").concat(
                cause.as_str(),
            ),
            Error::Builder(cause) => String::from_str("Unable to prepare the updater: ").concat(
                cause.as_str(),
            ),
            Error::UnsupportedPlatform => String::from_str(
                "Unsuported operating system or platform",
            ),
            Error::PubkeyButNoSignature => String::from_str(
                "Signature not available but public key provided, skipping update",
            ),
            Error::UpToDate => String::from_str("No updates available"),
        }
    }
}

/// The operating system that the application was built for, as far as the
/// updater tells systems apart.
#[derive(Clone, Copy, Debug, PartialEq, Eq, Structural)]
pub enum TargetOs {
    Linux,
    Macos,
    /// Windows with 32-bit pointers.
    Windows32,
    /// Windows with wider pointers.
    Windows64,
    /// Any other system.
    Other,
}

/// The name under which manifests announce a system: `linux`, `darwin`,
/// `win32` or `win64`.
pub open spec fn updater_target(os: TargetOs) -> Option<Seq<char>> {
    match os {
        TargetOs::Linux => Some("linux"@),
        TargetOs::Macos => Some("darwin"@),
        TargetOs::Windows32 => Some("win32"@),
        TargetOs::Windows64 => Some("win64"@),
        TargetOs::Other => None,
    }
}

/// Returns a target os
///
/// Available target: `linux, darwin, win32, win64`; `None` for a system
/// that the updater does not support.
pub fn get_updater_target(os: TargetOs) -> (target: Option<String>)
    ensures
        option_view(target) == updater_target(os),
{
    match os {
        TargetOs::Linux => Some(String::from_str("linux")),
        TargetOs::Macos => Some(String::from_str("darwin")),
        TargetOs::Windows32 => Some(String::from_str("win32")),
        TargetOs::Windows64 => Some(String::from_str("win64")),
        TargetOs::Other => None,
    }
}

/// Whether the system is Windows.
pub open spec fn is_windows(os: TargetOs) -> bool {
    os == TargetOs::Windows32 || os == TargetOs::Windows64
}

/// Fallback archive name by os: the name says by its extension how the
/// archive is packed.
pub fn default_archive_name_by_os(os: TargetOs) -> (name: String)
    ensures
        name@ == if is_windows(os) {
            "update.zip"@
        } else {
            "update.tar.gz"@
        },
{
    match os {
        TargetOs::Windows32 | TargetOs::Windows64 => String::from_str("update.zip"),
        _ => String::from_str("update.tar.gz"),
    }
}

/// The name under which a downloaded archive is saved: what follows the
/// last `/` of its address, which is all of the address where it has no
/// `/`, and nothing where it ends in one.
pub fn detect_archive_in_url(path: &str) -> (name: String)
    ensures
        name@ == last_segment(path@, '/'),
        !name@.contains('/'),
{
    String::from_str(rsplit_last(path, '/'))
}

/// Where the running executable is.
#[derive(Clone, Debug, PartialEq, Eq)]
pub struct ExecutableLocation {
    /// The directory that holds the executable, if it has one.
    pub parent: Option<String>,
    /// The directory two levels above that one, if there is one: for an
    /// executable inside an application bundle, the bundle.
    pub bundle: Option<String>,
}

/// Whether the executable sits in an application bundle of macOS.
pub open spec fn in_bundle(os: TargetOs, parent: Seq<char>) -> bool {
    os == TargetOs::Macos && contains_text(parent, "Contents/MacOS"@)
}

/// Whether the executable sits in an application bundle of macOS.
pub fn in_bundle_path(os: TargetOs, parent: &str) -> (r: bool)
    ensures
        r == in_bundle(os, parent@),
{
    match os {
        TargetOs::Macos => contains(parent, "Contents/MacOS"),
        _ => false,
    }
}

/// Where an update is installed: on macOS the bundle that holds the
/// executable; on Linux the AppImage that runs, where the environment names
/// one; in every other case the directory that holds the executable.
pub open spec fn extract_path(
    location: ExecutableLocation,
    os: TargetOs,
    appimage: Option<String>,
) -> Seq<char> {
    if in_bundle(os, location.parent->0@) {
        location.bundle->0@
    } else if os == TargetOs::Linux && appimage is Some {
        appimage->0@
    } else {
        location.parent->0@
    }
}

/// Get the extract_path from the location of the executable.
///
/// The executable must lie in a directory, and inside a bundle of macOS the
/// bundle must be two levels above that directory.
pub fn extract_path_from_executable(
    location: &ExecutableLocation,
    os: TargetOs,
    appimage: Option<String>,
) -> (path: String)
    requires
        location.parent is Some,
        in_bundle(os, location.parent->0@) ==> location.bundle is Some,
    ensures
        path@ == extract_path(*location, os, appimage),
{
    let parent = match &location.parent {
        Some(parent) => parent,
        None => {
            return String::new();
        },
    };
    match os {
        TargetOs::Macos => {
            if contains(parent.as_str(), "Contents/MacOS") {
                match &location.bundle {
                    Some(bundle) => {
                        return bundle.clone();
                    },
                    None => {},
                }
            }
        },
        TargetOs::Linux => {
            if let Some(app_image_path) = appimage {
                return app_image_path;
            }
        },
        _ => {},
    }
    parent.clone()
}

/// Get the current app name in the path: the last of its components.
/// Example; the components of `/Applications/updater-example.app`
/// Should return; `updater-example.app`
pub fn macos_app_name_in_path(components: &Vec<String>) -> (name: String)
    requires
        components@.len() > 0,
    ensures
        name@ == components@.last()@,
{
    components[components.len() - 1].clone()
}

/// The version that an updater compares against when it is given none.
pub const DEFAULT_VERSION: &'static str = "0.1.0";

/// The settings of an update check.
#[derive(Debug, PartialEq, Eq)]
pub struct UpdateBuilder<'a> {
    /// Current version we are running to compare with announced version
    pub current_version: &'a str,
    /// The URLs to checks updates. We suggest at least one fallback on a different domain.
    pub urls: Vec<String>,
    /// The platform the updater will check and install the update. Default is from `get_updater_target`
    pub target: Option<String>,
    /// The current executable path. Default is automatically extracted.
    pub executable_path: Option<String>,
}

impl<'a> Default for UpdateBuilder<'a> {
    fn default() -> (builder: Self)
        ensures
            builder.urls@.len() == 0,
            builder.target is None,
            builder.executable_path is None,
            builder.current_version@ == DEFAULT_VERSION@,
    {
        UpdateBuilder {
            urls: Vec::new(),
            target: None,
            executable_path: None,
            current_version: DEFAULT_VERSION,
        }
    }
}

/// An update check with nothing set.
pub fn builder<'a>() -> (builder: UpdateBuilder<'a>)
    ensures
        builder.urls@.len() == 0,
        builder.target is None,
        builder.executable_path is None,
        builder.current_version@ == DEFAULT_VERSION@,
{
    UpdateBuilder::new()
}

/// What an update check is told of the machine it runs on.
#[derive(Debug, PartialEq, Eq)]
pub struct Host {
    /// The operating system.
    pub os: TargetOs,
    /// Where the executable that runs is, or why that cannot be told.
    pub executable: Result<ExecutableLocation, String>,
    /// Where the executable is that the builder names, if it names one.
    pub named: Option<ExecutableLocation>,
    /// The AppImage that runs, where the environment names one.
    pub appimage: Option<String>,
}

/// An address with `{{current_version}}` and `{{target}}` filled in.
pub open spec fn fixed_link(url: Seq<char>, current_version: Seq<char>, target: Seq<char>) -> Seq<
    char,
> {
    replaced(replaced(url, "{{current_version}}"@, current_version), "{{target}}"@, target)
}

/// The target that a check asks manifests for: the one that was set, or
/// else the one of the system.
pub open spec fn check_target(set: Option<String>, os: TargetOs) -> Option<Seq<char>> {
    match set {
        Some(target) => Some(target@),
        None => updater_target(os),
    }
}

/// An update check that is under way: the addresses to ask, which of them
/// is next, and the last error of an answer.
#[derive(Debug, PartialEq, Eq)]
pub struct UpdateCheck {
    /// The version that runs.
    pub current_version: String,
    /// The platform to look for.
    pub target: String,
    /// Where an update is installed.
    pub extract_path: String,
    /// The addresses to ask, in the order of preference, with version and
    /// target filled in.
    pub links: Vec<String>,
    /// How many of the addresses were asked and gave no release.
    pub next: usize,
    /// Why the last answer that was received gave no release: its body
    /// could not be read, or its manifest announces none.
    pub last_error: Option<Error>,
}

/// What came of asking an address.
#[derive(Debug, PartialEq, Eq)]
pub enum Fetched {
    /// The request failed.
    Failed,
    /// An answer came and its body could not be read; the cause in words.
    Unreadable(String),
    /// An answer came: its status and its body.
    Read { status: u16, data: JsonValue },
}

/// An update that a check has found, or the release that it found to be no
/// update.
#[derive(Clone, Debug, PartialEq, Eq)]
pub struct Update {
    /// Update description
    pub body: Option<String>,
    /// Should we update or not
    pub should_update: bool,
    /// Version announced
    pub version: String,
    /// Running version
    pub current_version: String,
    /// Update publish date
    pub date: String,
    /// Target
    pub target: String,
    /// Extract path
    pub extract_path: String,
    /// Download URL announced
    pub download_url: String,
    /// Signature announced
    pub signature: Option<String>,
}

/// An update, by the characters of its texts.
pub struct UpdateView {
    pub body: Option<Seq<char>>,
    pub should_update: bool,
    pub version: Seq<char>,
    pub current_version: Seq<char>,
    pub date: Seq<char>,
    pub target: Seq<char>,
    pub extract_path: Seq<char>,
    pub download_url: Seq<char>,
    pub signature: Option<Seq<char>>,
}

impl View for Update {
    type V = UpdateView;

    open spec fn view(&self) -> UpdateView {
        UpdateView {
            body: option_view(self.body),
            should_update: self.should_update,
            version: self.version@,
            current_version: self.current_version@,
            date: self.date@,
            target: self.target@,
            extract_path: self.extract_path@,
            download_url: self.download_url@,
            signature: option_view(self.signature),
        }
    }
}

/// Whether `second` is a later version than `first`, as `semver` orders
/// versions; `None` where one of the two is no version.
pub uninterp spec fn semver_is_greater(first: Seq<char>, second: Seq<char>) -> Option<bool>;

/// Compares two versions: `semver::Version::parse` on both, and the order
/// of `semver::Version` between them.
///
/// Trusted: the outcome is a function of the two texts alone, named
/// [`semver_is_greater`]: whether the first is the lesser, and `None`
/// where either text is refused as a version.
#[verifier::external_body]
pub(crate) fn is_greater(first: &str, second: &str) -> (r: Option<bool>)
    ensures
        r == semver_is_greater(first@, second@),
{
    match (semver::Version::parse(first), semver::Version::parse(second)) {
        (Ok(first), Ok(second)) => Some(first < second),
        _ => None,
    }
}

/// Whether a status of HTTP reports success: the statuses from 200 to 299
/// do.
pub fn status_is_success(status: u16) -> (success: bool)
    ensures
        success == (200 <= status < 300),
{
    200 <= status && status < 300
}

/// The update that a release is for a check.
pub open spec fn update_of(
    release: RemoteReleaseView,
    current_version: Seq<char>,
    target: Seq<char>,
    extract_path: Seq<char>,
    should_update: bool,
) -> UpdateView {
    UpdateView {
        body: release.body,
        should_update,
        version: release.version,
        current_version,
        date: release.date,
        target,
        extract_path,
        download_url: release.download_url,
        signature: release.signature,
    }
}

/// An error, by the characters of its texts.
pub enum ErrorView {
    Io(Seq<char>),
    Minisign(SignatureError),
    Base64(Base64Error),
    Utf8,
    TauriApi(Seq<char>),
    Network(Seq<char>),
    RemoteMetadata(Seq<char>),
    Builder(Seq<char>),
    UnsupportedPlatform,
    PubkeyButNoSignature,
    UpToDate,
}

impl View for Error {
    type V = ErrorView;

    open spec fn view(&self) -> ErrorView {
        match *self {
            Error::Io(cause) => ErrorView::Io(cause@),
            Error::Minisign(e) => ErrorView::Minisign(e),
            Error::Base64(e) => ErrorView::Base64(e),
            Error::Utf8 => ErrorView::Utf8,
            Error::TauriApi(cause) => ErrorView::TauriApi(cause@),
            Error::Network(cause) => ErrorView::Network(cause@),
            Error::RemoteMetadata(cause) => ErrorView::RemoteMetadata(cause@),
            Error::Builder(cause) => ErrorView::Builder(cause@),
            Error::UnsupportedPlatform => ErrorView::UnsupportedPlatform,
            Error::PubkeyButNoSignature => ErrorView::PubkeyButNoSignature,
            Error::UpToDate => ErrorView::UpToDate,
        }
    }
}

/// What a check ends with when no address gave a release: the last error
/// of an answer as a network error, or that no manifest was received at
/// all.
pub open spec fn exhausted(last_error: Option<Error>) -> ErrorView {
    match last_error {
        Some(e) => ErrorView::Network(error_text(e)),
        None => ErrorView::RemoteMetadata(
            "Unable to extract update metadata from the remote server."@,
        ),
    }
}

/// What one answer means for a check that has asked its next address.
pub enum Verdict {
    /// The check is over, with this update.
    Found(UpdateView),
    /// The check is over, with this error.
    Failed(ErrorView),
    /// The address gave no release; the next one is to be asked, and this
    /// is the last error from now on.
    Next(Option<ErrorView>),
}

/// An optional error, by the characters of its texts.
pub open spec fn option_error_view(error: Option<Error>) -> Option<ErrorView> {
    match error {
        Some(e) => Some(e@),
        None => None,
    }
}

/// The meaning of an answer: a request that failed and an answer without
/// success pass the turn to the next address; the status 204 ends the
/// check; a manifest ends it with the release that it announces for the
/// target. A body that cannot be read and a manifest without a release
/// pass the turn to the next address too, and are remembered as the last
/// error. When the turn passes and no address is left, the check ends as
/// [`exhausted`] says.
pub open spec fn verdict(check: UpdateCheck, fetched: Fetched) -> Verdict {
    let last = check.next + 1 == check.links@.len();
    match fetched {
        Fetched::Failed => if last {
            Verdict::Failed(exhausted(check.last_error))
        } else {
            Verdict::Next(option_error_view(check.last_error))
        },
        Fetched::Unreadable(cause) => if last {
            Verdict::Failed(ErrorView::Network(error_text_of(ErrorView::TauriApi(cause@))))
        } else {
            Verdict::Next(Some(ErrorView::TauriApi(cause@)))
        },
        Fetched::Read { status, data } => if !(200 <= status < 300) {
            if last {
                Verdict::Failed(exhausted(check.last_error))
            } else {
                Verdict::Next(option_error_view(check.last_error))
            }
        } else if status == 204 {
            Verdict::Failed(ErrorView::UpToDate)
        } else {
            match release_of(data, check.target@) {
                Ok(release) => Verdict::Found(
                    update_of(
                        release,
                        check.current_version@,
                        check.target@,
                        check.extract_path@,
                        match semver_is_greater(check.current_version@, release.version) {
                            Some(newer) => newer,
                            None => false,
                        },
                    ),
                ),
                Err(reason) => if last {
                    Verdict::Failed(
                        ErrorView::Network(error_text_of(ErrorView::RemoteMetadata(reason))),
                    )
                } else {
                    Verdict::Next(Some(ErrorView::RemoteMetadata(reason)))
                },
            }
        },
    }
}

/// Whether asking an address failed: the request failed, the body of the
/// answer could not be read, its status is none of success, or its
/// manifest announces no release for the target.
pub open spec fn is_failure(fetched: Fetched, target: Seq<char>) -> bool {
    match fetched {
        Fetched::Failed => true,
        Fetched::Unreadable(_) => true,
        Fetched::Read { status, data } => !(200 <= status < 300) || (status != 204 && release_of(
            data,
            target,
        ) is Err),
    }
}

/// While an address is left to ask, no failure ends the check: whatever
/// way asking an address failed, the next one is asked.
pub proof fn law_failure_passes_the_turn(check: UpdateCheck, fetched: Fetched)
    requires
        check.next + 1 < check.links@.len(),
        is_failure(fetched, check.target@),
    ensures
        verdict(check, fetched) is Next,
{
}

/// The text of an error, from its characters.
pub open spec fn error_text_of(error: ErrorView) -> Seq<char> {
    match error {
        ErrorView::Io(cause) => cause,
        ErrorView::Minisign(e) => "Verify signature error: "@ + signature_error_text(e),
        ErrorView::Base64(e) => "Signature decoding error: "@ + base64_error_text(e),
        ErrorView::Utf8 => "Signature encoding error"@,
        ErrorView::TauriApi(cause) => "Tauri API error: "@ + cause,
        ErrorView::Network(cause) => "Network error: "@ + cause,
        ErrorView::RemoteMetadata(cause) => "Remote JSON error: "@ + cause,
        ErrorView::Builder(cause) => "Unable to prepare the updater: "@ + cause,
        ErrorView::UnsupportedPlatform => "Unsuported operating system or platform"@,
        ErrorView::PubkeyButNoSignature =>
            "Signature not available but public key provided, skipping update"@,
        ErrorView::UpToDate => "No updates available"@,
    }
}

/// The executable that a check is about: the one that the builder names,
/// or else the one that runs.
pub open spec fn chosen_executable(builder: UpdateBuilder, host: Host) -> ExecutableLocation {
    if builder.executable_path is Some {
        host.named->0
    } else {
        host.executable->Ok_0
    }
}

/// The error that stops a check before it asks any address: no address to
/// ask, no executable named and the running one cannot be told, or a
/// system without a target when none was set, in this order.
pub open spec fn build_error(builder: UpdateBuilder, host: Host) -> Option<ErrorView> {
    if builder.urls@.len() == 0 {
        Some(ErrorView::Builder("Unable to check update, `url` is required."@))
    } else if builder.executable_path is None && host.executable is Err {
        Some(ErrorView::Io(host.executable->Err_0@))
    } else if check_target(builder.target, host.os) is None {
        Some(ErrorView::UnsupportedPlatform)
    } else {
        None
    }
}

// Create new updater instance and return an Update
impl<'a> UpdateBuilder<'a> {
    /// An update check with nothing set.
    pub fn new() -> (builder: Self)
        ensures
            builder.urls@.len() == 0,
            builder.target is None,
            builder.executable_path is None,
            builder.current_version@ == DEFAULT_VERSION@,
    {
        UpdateBuilder {
            urls: Vec::new(),
            target: None,
            executable_path: None,
            current_version: DEFAULT_VERSION,
        }
    }

    /// Adds an address to ask, behind those that are there.
    pub fn url(self, url: String) -> (builder: Self)
        ensures
            builder.urls@ == self.urls@.push(url),
            builder.current_version == self.current_version,
            builder.target == self.target,
            builder.executable_path == self.executable_path,
    {
        let mut builder = self;
        builder.urls.push(url);
        builder
    }

    /// Add multiple URLS at once inside a Vec for future reference: they
    /// take the place of every address that was there.
    pub fn urls(self, urls: &[String]) -> (builder: Self)
        ensures
            builder.urls@ == urls@,
            builder.current_version == self.current_version,
            builder.target == self.target,
            builder.executable_path == self.executable_path,
    {
        let mut formatted_vec: Vec<String> = Vec::new();
        let mut i: usize = 0;
        while i < urls.len()
            invariant
                i <= urls@.len(),
                formatted_vec@ == urls@.take(i as int),
            decreases urls@.len() - i,
        {
            formatted_vec.push(urls[i].clone());
            assert(urls@.take(i + 1) =~= urls@.take(i as int).push(urls@[i as int]));
            i = i + 1;
        }
        assert(urls@.take(i as int) =~= urls@);
        let mut builder = self;
        builder.urls = formatted_vec;
        builder
    }

    /// Set the current app version, used to compare against the latest available version.
    pub fn current_version(self, ver: &'a str) -> (builder: Self)
        ensures
            builder.current_version == ver,
            builder.urls == self.urls,
            builder.target == self.target,
            builder.executable_path == self.executable_path,
    {
        let mut builder = self;
        builder.current_version = ver;
        builder
    }

    /// Set the target (os)
    /// win32, win64, darwin and linux are currently supported
    pub fn target(self, target: &str) -> (builder: Self)
        ensures
            option_view(builder.target) == Some(target@),
            builder.urls == self.urls,
            builder.current_version == self.current_version,
            builder.executable_path == self.executable_path,
    {
        let mut builder = self;
        builder.target = Some(target.to_owned());
        builder
    }

    /// Set the executable path
    pub fn executable_path(self, executable_path: &str) -> (builder: Self)
        ensures
            option_view(builder.executable_path) == Some(executable_path@),
            builder.urls == self.urls,
            builder.current_version == self.current_version,
            builder.target == self.target,
    {
        let mut builder = self;
        builder.executable_path = Some(executable_path.to_owned());
        builder
    }

    /// Starts the check: settles the target and the place of installation,
    /// and fills version and target into every address.
    ///
    /// The check is about the executable that the builder names, and else
    /// about the one that runs. It fails, in this order, without an
    /// address, where no executable is named and the running one cannot
    /// be told, and on a system without a target when none was set.
    /// Otherwise the executable must lie in a directory (and on macOS,
    /// inside a bundle, two levels below it): see
    /// [`extract_path_from_executable`]. Where the builder names an
    /// executable, the host says where it lies.
    pub fn build(self, host: Host) -> (r: Result<UpdateCheck, Error>)
        requires
            self.executable_path is Some ==> host.named is Some,
            build_error(self, host) is None ==> chosen_executable(self, host).parent is Some && (
            in_bundle(host.os, chosen_executable(self, host).parent->0@) ==> chosen_executable(
                self,
                host,
            ).bundle is Some),
        ensures
            match build_error(self, host) {
                Some(error) => r matches Err(e) && e@ == error,
                None => r matches Ok(check) && {
                    &&& check.current_version@ == self.current_version@
                    &&& Some(check.target@) == check_target(self.target, host.os)
                    &&& check.extract_path@ == extract_path(
                        chosen_executable(self, host),
                        host.os,
                        host.appimage,
                    )
                    &&& check.links@.len() == self.urls@.len()
                    &&& forall|i: int|
                        0 <= i < self.urls@.len() ==> (#[trigger] check.links@[i])@ == fixed_link(
                            self.urls@[i]@,
                            self.current_version@,
                            check.target@,
                        )
                    &&& check.next == 0
                    &&& check.last_error is None
                },
            },
    {
        // make sure we have at least one url
        if self.urls.len() == 0 {
            return Err(
                Error::Builder(String::from_str("Unable to check update, `url` is required.")),
            );
        }
        let current_version = self.current_version;
        let Host { os, executable, named, appimage } = host;
        let location = match (&self.executable_path, named) {
            (Some(_), Some(location)) => location,
            _ => match executable {
                Ok(location) => location,
                Err(cause) => {
                    return Err(Error::Io(cause));
                },
            },
        };
        // Did the target is provided by the config?
        let target = match self.target {
            Some(target) => target,
            None => match get_updater_target(os) {
                Some(target) => target,
                None => {
                    return Err(Error::UnsupportedPlatform);
                },
            },
        };
        let extract_path = extract_path_from_executable(&location, os, appimage);
        let mut links: Vec<String> = Vec::new();
        let mut i: usize = 0;
        while i < self.urls.len()
            invariant
                i <= self.urls@.len(),
                links@.len() == i,
                forall|j: int|
                    0 <= j < i ==> (#[trigger] links@[j])@ == fixed_link(
                        self.urls@[j]@,
                        current_version@,
                        target@,
                    ),
            decreases self.urls@.len() - i,
        {
            let with_version = replace(
                self.urls[i].as_str(),
                "{{current_version}}",
                current_version,
            );
            let fixed_link = replace(with_version.as_str(), "{{target}}", target.as_str());
            links.push(fixed_link);
            i = i + 1;
        }
        Ok(
            UpdateCheck {
                current_version: String::from_str(current_version),
                target,
                extract_path,
                links,
                next: 0,
                last_error: None,
            },
        )
    }
}

impl UpdateCheck {
    /// The address to ask next: the manifest is fetched from it with a
    /// request for JSON. `None` once every address was asked.
    pub fn request(&self) -> (link: Option<&String>)
        ensures
            self.next < self.links@.len() ==> link == Some(&self.links@[self.next as int]),
            self.next >= self.links@.len() ==> link is None,
    {
        if self.next < self.links.len() {
            Some(&self.links[self.next])
        } else {
            None
        }
    }

    /// The update that a release is for this check.
    pub fn found(&self, release: RemoteRelease, should_update: bool) -> (update: Update)
        ensures
            update@ == update_of(
                release@,
                self.current_version@,
                self.target@,
                self.extract_path@,
                should_update,
            ),
    {
        Update {
            target: self.target.clone(),
            extract_path: self.extract_path.clone(),
            should_update,
            version: release.version,
            date: release.date,
            current_version: self.current_version.clone(),
            download_url: release.download_url,
            body: release.body,
            signature: release.signature,
        }
    }

    /// How the check ends when no address gave a release.
    fn give_up(&self) -> (e: Error)
        ensures
            e@ == exhausted(self.last_error),
    {
        match &self.last_error {
            Some(error) => Error::Network(error.message()),
            None => Error::RemoteMetadata(
                String::from_str("Unable to extract update metadata from the remote server."),
            ),
        }
    }

    /// The turn passes to the next address, or the check ends where none
    /// is left.
    fn pass(&mut self) -> (r: Option<Result<Update, Error>>)
        requires
            old(self).next < old(self).links@.len(),
        ensures
            old(self).next + 1 == old(self).links@.len() ==> (r matches Some(Err(e)) && e@
                == exhausted(old(self).last_error)),
            old(self).next + 1 < old(self).links@.len() ==> r is None && final(self).next == old(
                self,
            ).next + 1,
            final(self).links == old(self).links,
            final(self).last_error == old(self).last_error,
            final(self).current_version == old(self).current_version,
            final(self).target == old(self).target,
            final(self).extract_path == old(self).extract_path,
    {
        if self.next == self.links.len() - 1 {
            Some(Err(self.give_up()))
        } else {
            self.next = self.next + 1;
            None
        }
    }

    /// Takes what came of asking the next address, and says how the check
    /// ends, or `None` where the next address is to be asked: see
    /// [`verdict`].
    ///
    /// An address must be left to ask.
    pub fn respond(&mut self, fetched: Fetched) -> (r: Option<Result<Update, Error>>)
        requires
            old(self).next < old(self).links@.len(),
        ensures
            match verdict(*old(self), fetched) {
                Verdict::Found(update) => r matches Some(Ok(found)) && found@ == update,
                Verdict::Failed(error) => r matches Some(Err(e)) && e@ == error,
                Verdict::Next(last) => {
                    &&& r is None
                    &&& final(self).next == old(self).next + 1
                    &&& option_error_view(final(self).last_error) == last
                    &&& final(self).links == old(self).links
                    &&& final(self).current_version == old(self).current_version
                    &&& final(self).target == old(self).target
                    &&& final(self).extract_path == old(self).extract_path
                },
            },
    {
        match fetched {
            Fetched::Failed => self.pass(),
            Fetched::Unreadable(cause) => {
                self.last_error = Some(Error::TauriApi(cause));
                self.pass()
            },
            Fetched::Read { status, data } => {
                // got status code 2XX
                if status_is_success(status) {
                    // if we got 204
                    if status == 204 {
                        // return with `UpToDate` error
                        // we should catch on the client
                        return Some(Err(Error::UpToDate));
                    }
                    // Convert the remote result to our local struct
                    match RemoteRelease::from_release(&data, self.target.as_str()) {
                        Ok(release) => {
                            // did the announced version is greated than our current one?
                            let should_update = match is_greater(
                                self.current_version.as_str(),
                                release.version.as_str(),
                            ) {
                                Some(newer) => newer,
                                None => false,
                            };
                            Some(Ok(self.found(release, should_update)))
                        },
                        Err(err) => {
                            self.last_error = Some(err);
                            self.pass()
                        },
                    }
                } else {
                    // if status code is not 2XX we keep loopin' our urls
                    self.pass()
                }
            },
        }
    }
}

} // verus!
