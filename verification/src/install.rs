//! Downloading and installing an update: what to fetch, whether what came
//! may be installed, and how the installed application is replaced.

use crate::signature::{archive_view, signature_verdict, verify_signature};
use crate::text::{decimal, decimal_string, last_segment, replace, replaced, str_eq};
use crate::updater::{
    detect_archive_in_url, option_view, status_is_success, Error, ErrorView, TargetOs, Update,
};
use vstd::prelude::*;
use vstd::string::*;

verus! {

/// What to fetch, and where to keep it while it is checked.
#[derive(Debug, PartialEq, Eq)]
pub struct Download {
    /// The address of the archive. It is asked for with a request that
    /// accepts `application/octet-stream` and names `tauri/updater` as
    /// the user agent.
    pub url: String,
    /// The start of the name of the temporary directory.
    pub tmp_prefix: String,
    /// The name of the archive inside that directory.
    pub archive_name: String,
}

/// The start of the name of the temporary directory: the name of the
/// executable (the time, where it has no name), the time, and `download`.
pub open spec fn download_prefix(bin_name: Option<Seq<char>>, current_time: Seq<char>) -> Seq<
    char,
> {
    (match bin_name {
        Some(name) => name,
        None => current_time,
    }) + "_"@ + current_time + "_download"@
}

/// The characters of an optional text that is borrowed.
pub open spec fn option_str_view(text: Option<&str>) -> Option<Seq<char>> {
    match text {
        Some(t) => Some(t@),
        None => None,
    }
}

/// The words for a download that the server refused.
pub open spec fn download_failed(status: u16) -> Seq<char> {
    "Download request failed with status: "@ + decimal(status as nat)
}

/// Whether a download may be installed, or the first reason why it may not:
/// the server must have answered with success and the archive must have
/// been saved; with a public key, the release must announce a signature
/// and the archive must verify against both.
pub open spec fn download_verdict(
    update: Update,
    status: u16,
    saved: Result<(), String>,
    archive: Result<Seq<u8>, String>,
    pub_key: Option<String>,
) -> Result<(), ErrorView> {
    if !(200 <= status < 300) {
        Err(ErrorView::Network(download_failed(status)))
    } else if saved is Err {
        Err(ErrorView::Io(saved->Err_0@))
    } else {
        match pub_key {
            None => Ok(()),
            Some(key) => match update.signature {
                None => Err(ErrorView::PubkeyButNoSignature),
                Some(signature) => match signature_verdict(archive, signature@, key@) {
                    Ok(()) => Ok(()),
                    Err(e) => Err(e@),
                },
            },
        }
    }
}

impl Update {
    /// Plans the download of the update. On Linux an update can be
    /// installed only over an AppImage that runs; without one the platform
    /// is not supported.
    pub fn download_and_install(
        &self,
        os: TargetOs,
        appimage: bool,
        bin_name: Option<&str>,
        current_time: &str,
    ) -> (r: Result<Download, Error>)
        ensures
            os == TargetOs::Linux && !appimage ==> r == Err::<Download, Error>(
                Error::UnsupportedPlatform,
            ),
            !(os == TargetOs::Linux && !appimage) ==> (r matches Ok(download) && {
                &&& download.url == self.download_url
                &&& download.tmp_prefix@ == download_prefix(
                    option_str_view(bin_name),
                    current_time@,
                )
                &&& download.archive_name@ == last_segment(self.download_url@, '/')
            }),
    {
        if os == TargetOs::Linux && !appimage {
            return Err(Error::UnsupportedPlatform);
        }
        // if we cant extract app name, we use unix epoch duration
        let mut tmp_prefix = match bin_name {
            Some(name) => String::from_str(name),
            None => String::from_str(current_time),
        };
        tmp_prefix.append("_");
        tmp_prefix.append(current_time);
        tmp_prefix.append("_download");
        Ok(
            Download {
                url: self.download_url.clone(),
                tmp_prefix,
                archive_name: detect_archive_in_url(self.download_url.as_str()),
            },
        )
    }

    /// Says whether what was downloaded may be installed: see
    /// [`download_verdict`].
    ///
    /// `saved` is the outcome of saving the archive and `archive` the
    /// outcome of reading it back, each with the cause in words where it
    /// failed; neither is read where the status is none of success.
    pub fn verify_download(
        &self,
        status: u16,
        saved: Result<(), String>,
        archive: Result<Vec<u8>, String>,
        pub_key: Option<String>,
    ) -> (r: Result<(), Error>)
        ensures
            match download_verdict(*self, status, saved, archive_view(archive), pub_key) {
                Ok(()) => r is Ok,
                Err(error) => r matches Err(e) && e@ == error,
            },
    {
        // make sure it's success
        if !status_is_success(status) {
            let mut reason = String::from_str("Download request failed with status: ");
            reason.append(decimal_string(status as u64).as_str());
            return Err(Error::Network(reason));
        }
        match saved {
            Ok(()) => {},
            Err(cause) => {
                return Err(Error::Io(cause));
            },
        }
        // Validate signature ONLY if pubkey is available
        if let Some(pub_key) = pub_key {
            // We need an announced signature by the server
            // if there is no signature, bail out.
            match &self.signature {
                Some(signature) => {
                    // we make sure the archive is valid and signed with the private key linked with the publickey
                    match verify_signature(archive, signature.clone(), pub_key.as_str()) {
                        Ok(_) => {},
                        Err(e) => {
                            return Err(e);
                        },
                    }
                },
                None => {
                    // We have a public key inside our source file, but not announced by the server,
                    // we assume this update is NOT valid.
                    return Err(Error::PubkeyButNoSignature);
                },
            }
        }
        Ok(())
    }
}

/// Something found in the directory that an archive was unpacked into.
#[derive(Clone, Debug, PartialEq, Eq)]
pub struct FoundPath {
    /// Its path.
    pub path: String,
    /// The extension of its name, without the dot.
    pub extension: Option<String>,
    /// Its name: the last component of its path.
    pub name: String,
}

/// How the installed application is replaced.
#[derive(Debug, PartialEq, Eq)]
pub enum Install {
    /// Delete the AppImage that runs and, where the archive held an
    /// AppImage, move that one to its place.
    AppImage { remove: String, replace_with: Option<String> },
    /// Start the installer and leave.
    Exe { installer: String },
    /// Install the package. Where the executable has a name, first look for
    /// the scheduled task `task` that installs without asking for
    /// elevation; if it exists, move the package to where the task expects
    /// it, under the name of the executable, and run the task; if that
    /// fails, or without such a task, run the package installer. Leave.
    Msi { package: String, task: Option<String>, bin_name: Option<String> },
    /// Give the bundle that the archive held the name `rename_to`, where
    /// one is given, and put it in the place of the installed bundle.
    App { bundle: String, rename_to: Option<String>, destination: String },
    /// Nothing in the archive can be installed.
    Nothing,
}

/// Whether something found has the extension `extension`.
pub open spec fn has_extension(found: FoundPath, extension: Seq<char>) -> bool {
    found.extension matches Some(e) && e@ == extension
}

/// Whether the system installs something found: an AppImage on Linux, a
/// bundle on macOS, an installer or a package on Windows.
pub open spec fn installs(os: TargetOs, found: FoundPath) -> bool {
    match os {
        TargetOs::Linux => has_extension(found, "AppImage"@),
        TargetOs::Macos => has_extension(found, "app"@),
        TargetOs::Windows32 | TargetOs::Windows64 => has_extension(found, "exe"@) || has_extension(
            found,
            "msi"@,
        ),
        TargetOs::Other => false,
    }
}

/// The first of what was found that the system installs.
pub open spec fn first_installable(os: TargetOs, found: Seq<FoundPath>) -> Option<FoundPath>
    decreases found.len(),
{
    if found.len() == 0 {
        None
    } else if installs(os, found[0]) {
        Some(found[0])
    } else {
        first_installable(os, found.drop_first())
    }
}

/// The name of the scheduled task that updates an application without
/// asking for elevation.
pub open spec fn skip_uac_task(bin_name: Seq<char>) -> Seq<char> {
    "Update "@ + replaced(bin_name, ".exe"@, ""@) + " - Skip UAC"@
}

/// Whether `install` is how `os` replaces the application installed at
/// `extract_path`, whose name is `app_name`, with the first installable
/// thing among `found`.
pub open spec fn install_of(
    install: Install,
    os: TargetOs,
    found: Seq<FoundPath>,
    extract_path: Seq<char>,
    app_name: Seq<char>,
    bin_name: Option<Seq<char>>,
) -> bool {
    match os {
        TargetOs::Linux => install matches Install::AppImage { remove, replace_with }
            && remove@ == extract_path && match first_installable(os, found) {
            Some(image) => replace_with == Some(image.path),
            None => replace_with is None,
        },
        TargetOs::Other => install is Nothing,
        _ => match first_installable(os, found) {
            None => install is Nothing,
            Some(first) => if os == TargetOs::Macos {
                install matches Install::App { bundle, rename_to, destination } && bundle
                    == first.path && destination@ == extract_path && if first.name@ == app_name {
                    rename_to is None
                } else {
                    rename_to matches Some(name) && name@ == app_name
                }
            } else if has_extension(first, "exe"@) {
                install == (Install::Exe { installer: first.path })
            } else {
                install matches Install::Msi { package, task, bin_name: name } && package
                    == first.path && match bin_name {
                    Some(b) => option_view(name) == Some(b) && option_view(task) == Some(
                        skip_uac_task(b),
                    ),
                    None => name is None && task is None,
                }
            },
        },
    }
}

/// Decides how the installed application is replaced by what an archive
/// held.
///
/// `found` is what the directory of the unpacked archive holds, in the
/// order in which it was listed; the first entry that the system installs
/// decides. `extract_path` is where the application is installed,
/// `app_name` the last component of that path, and `bin_name` the name of
/// the executable that runs, where it has one.
pub fn copy_files_and_run(
    os: TargetOs,
    found: &Vec<FoundPath>,
    extract_path: &str,
    app_name: &str,
    bin_name: Option<&str>,
) -> (install: Install)
    ensures
        install_of(install, os, found@, extract_path@, app_name@, option_str_view(bin_name)),
{
    let mut first: Option<usize> = None;
    let mut i: usize = 0;
    assert(found@.subrange(0, found@.len() as int) =~= found@);
    while i < found.len()
        invariant_except_break
            first is None,
            first_installable(os, found@) == first_installable(
                os,
                found@.subrange(i as int, found@.len() as int),
            ),
        invariant
            i <= found@.len(),
        ensures
            match first {
                Some(at) => at < found@.len() && first_installable(os, found@) == Some(
                    found@[at as int],
                ),
                None => first_installable(os, found@) is None,
            },
        decreases found@.len() - i,
    {
        let ghost rest = found@.subrange(i as int, found@.len() as int);
        assert(rest[0] == found@[i as int]);
        assert(rest.drop_first() =~= found@.subrange(i + 1, found@.len() as int));
        let wanted = match os {
            TargetOs::Linux => extension_is(&found[i], "AppImage"),
            TargetOs::Macos => extension_is(&found[i], "app"),
            TargetOs::Windows32 | TargetOs::Windows64 => extension_is(&found[i], "exe")
                || extension_is(&found[i], "msi"),
            TargetOs::Other => false,
        };
        if wanted {
            first = Some(i);
            break ;
        }
        i = i + 1;
    }
    match os {
        TargetOs::Linux => Install::AppImage {
            remove: String::from_str(extract_path),
            replace_with: match first {
                Some(at) => Some(found[at].path.clone()),
                None => None,
            },
        },
        TargetOs::Other => Install::Nothing,
        TargetOs::Macos => match first {
            None => Install::Nothing,
            Some(at) => {
                // make sure the app name in the archive matche the installed app name on path
                let rename_to = if str_eq(found[at].name.as_str(), app_name) {
                    None
                } else {
                    Some(String::from_str(app_name))
                };
                Install::App {
                    bundle: found[at].path.clone(),
                    rename_to,
                    destination: String::from_str(extract_path),
                }
            },
        },
        _ => match first {
            None => Install::Nothing,
            Some(at) => {
                // we support 2 type of files exe & msi for now
                // If it's an `exe` we expect an installer not a runtime.
                if extension_is(&found[at], "exe") {
                    Install::Exe { installer: found[at].path.clone() }
                } else {
                    match bin_name {
                        Some(bin_name) => {
                            let product_name = replace(bin_name, ".exe", "");
                            // Check if there is a task that enables the updater to skip the UAC prompt
                            let mut update_task_name = String::from_str("Update ");
                            update_task_name.append(product_name.as_str());
                            update_task_name.append(" - Skip UAC");
                            Install::Msi {
                                package: found[at].path.clone(),
                                task: Some(update_task_name),
                                bin_name: Some(String::from_str(bin_name)),
                            }
                        },
                        None => Install::Msi {
                            package: found[at].path.clone(),
                            task: None,
                            bin_name: None,
                        },
                    }
                }
            },
        },
    }
}

/// Whether something found has the extension `extension`.
fn extension_is(found: &FoundPath, extension: &str) -> (r: bool)
    ensures
        r == has_extension(*found, extension@),
{
    match &found.extension {
        Some(e) => str_eq(e.as_str(), extension),
        None => false,
    }
}

} // verus!
