//! The torrent client the plugin can run for itself: where its program
//! comes from and how it is configured and started.

use vstd::prelude::*;
use vstd::string::StringExecFns;
use crate::text::{decimal_text, push_decimal, same_text};

verus! {

/// Why there is no program to download.
#[derive(Clone, Copy, Debug, PartialEq, Eq, Structural)]
pub enum DownloadLinkError {
    /// The operating system is not Linux.
    UnsupportedSystem,
    /// The processor is none of those a program is published for.
    UnsupportedProcessor,
}

impl DownloadLinkError {
    /// The error in words.
    pub fn message(&self) -> (text: String)
        ensures
            text@ == match *self {
                DownloadLinkError::UnsupportedSystem => "only support linux"@,
                DownloadLinkError::UnsupportedProcessor => "only support x86_64 and aarch64"@,
            },
    {
        match self {
            DownloadLinkError::UnsupportedSystem => String::from_str("only support linux"),
            DownloadLinkError::UnsupportedProcessor => String::from_str(
                "only support x86_64 and aarch64",
            ),
        }
    }
}

/// Where the published programs lie.
pub open spec fn release_base() -> Seq<char> {
    "https://github.com/userdocs/qbittorrent-nox-static/releases/latest/download/"@
}

/// The link to the program for a system and a processor, or why there is
/// none: programs are published for Linux only, on x86_64, aarch64 and x86.
pub open spec fn download_link(target_os: Seq<char>, target_arch: Seq<char>) -> Result<
    Seq<char>,
    DownloadLinkError,
> {
    if target_os != "linux"@ {
        Err(DownloadLinkError::UnsupportedSystem)
    } else if target_arch == "x86_64"@ {
        Ok(release_base() + "x86_64-qbittorrent-nox"@)
    } else if target_arch == "aarch64"@ {
        Ok(release_base() + "aarch64-qbittorrent-nox"@)
    } else if target_arch == "x86"@ {
        Ok(release_base() + "x86-qbittorrent-nox"@)
    } else {
        Err(DownloadLinkError::UnsupportedProcessor)
    }
}

/// The link from which the torrent client's program is downloaded for the
/// given operating system and processor, named as the compiler names its
/// targets.
pub fn get_download_link(target_os: &str, target_arch: &str) -> (r: Result<
    String,
    DownloadLinkError,
>)
    ensures
        match r {
            Ok(link) => download_link(target_os@, target_arch@) == Ok::<
                Seq<char>,
                DownloadLinkError,
            >(link@),
            Err(e) => download_link(target_os@, target_arch@) == Err::<
                Seq<char>,
                DownloadLinkError,
            >(e),
        },
{
    if !same_text(target_os, "linux") {
        return Err(DownloadLinkError::UnsupportedSystem);
    }
    let mut link = String::from_str(
        "https://github.com/userdocs/qbittorrent-nox-static/releases/latest/download/",
    );
    if same_text(target_arch, "x86_64") {
        link.append("x86_64-qbittorrent-nox");
    } else if same_text(target_arch, "aarch64") {
        link.append("aarch64-qbittorrent-nox");
    } else if same_text(target_arch, "x86") {
        link.append("x86-qbittorrent-nox");
    } else {
        return Err(DownloadLinkError::UnsupportedProcessor);
    }
    Ok(link)
}

/// The argument that sets the port of the client's web interface.
pub fn port_argument(port: u16) -> (argument: String)
    ensures
        argument@ == "--webui-port="@ + decimal_text(port as nat),
{
    let mut argument = String::from_str("--webui-port=");
    push_decimal(&mut argument, port as u64);
    argument
}

/// The argument that names the folder the client keeps its profile in.
pub fn profile_argument(profile_folder: &str) -> (argument: String)
    ensures
        argument@ == "--profile="@ + profile_folder@,
{
    let mut argument = String::from_str("--profile=");
    argument.append(profile_folder);
    argument
}

/// The text of a first configuration up to the path.
pub open spec fn configuration_head() -> Seq<char> {
    "[LegalNotice]\n                    Accepted=true\n\n                    [BitTorrent]\n                    Session\\DefaultSavePath="@
}

/// The text of a first configuration after the path.
pub open spec fn configuration_tail() -> Seq<char> {
    "\n                "@
}

/// The configuration written before the client first runs: the legal
/// notice is accepted, and downloads are saved to `download_folder`.
pub fn first_configuration(download_folder: &str) -> (text: String)
    ensures
        text@ == configuration_head() + download_folder@ + configuration_tail(),
{
    let mut text = String::from_str(
        "[LegalNotice]\n                    Accepted=true\n\n                    [BitTorrent]\n                    Session\\DefaultSavePath=",
    );
    text.append(download_folder);
    text.append("\n                ");
    text
}

} // verus!
