//! Handing finished downloads to a file host: what is sent with each file,
//! and what is kept from each answer.

use vstd::prelude::*;
use vstd::string::StringExecFns;
use crate::text::{chars_of, optional_text, same_text};

verus! {

/// What the host answers to one uploaded file.
#[derive(Clone, Debug, PartialEq, Eq)]
pub struct UploadInfo {
    pub guest_token: Option<String>,
    pub download_page: String,
    pub code: String,
    pub parent_folder: String,
    pub file_id: String,
    pub file_name: String,
    pub md5: String,
}

/// Why an upload gave no download page.
#[derive(Clone, Copy, Debug, PartialEq, Eq, Structural)]
pub enum UploadError {
    /// The host named no server.
    NoServer,
    /// The host did not take the file.
    Refused,
    /// The folder held no file to upload.
    NothingUploaded,
}

/// The view of an [`UploadSession`].
pub struct UploadSessionView {
    pub token: Option<Seq<char>>,
    pub folder_id: Option<Seq<char>>,
    pub download_page: Seq<char>,
}

/// What is carried from file to file while a folder is uploaded: the guest
/// token and the folder the host made, so that all files land in one place,
/// and the page of the last upload.
#[derive(Clone, Debug, PartialEq, Eq)]
pub struct UploadSession {
    pub token: Option<String>,
    pub folder_id: Option<String>,
    pub download_page: String,
}

impl View for UploadSession {
    type V = UploadSessionView;

    open spec fn view(&self) -> UploadSessionView {
        UploadSessionView {
            token: optional_text(self.token),
            folder_id: optional_text(self.folder_id),
            download_page: self.download_page@,
        }
    }
}

/// Whether a status is the one the host gives on success.
pub open spec fn is_ok(status: Seq<char>) -> bool {
    status == "ok"@
}

/// The address files are uploaded to on a server of the host.
pub open spec fn upload_address(server: Seq<char>) -> Seq<char> {
    "https://"@ + server + ".gofile.io/uploadFile"@
}

/// Whether an entry met while walking a folder is uploaded: files only,
/// and none whose name begins with a dot.
pub open spec fn is_wanted(is_file: bool, file_name: Seq<char>) -> bool {
    is_file && !(file_name.len() > 0 && file_name[0] == '.')
}

/// The session after the host answered an upload: a token it gave
/// replaces the one held, the first folder it names is kept for good, and
/// its page becomes the page of the session.
pub open spec fn recorded(session: UploadSessionView, info: UploadInfo) -> UploadSessionView {
    UploadSessionView {
        token: if info.guest_token is Some {
            optional_text(info.guest_token)
        } else {
            session.token
        },
        folder_id: if session.folder_id is None {
            Some(info.parent_folder@)
        } else {
            session.folder_id
        },
        download_page: info.download_page@,
    }
}

/// The text fields sent along with a file, as name and value: the token if
/// one is held, then the folder if one is held.
pub open spec fn form_fields_of(session: UploadSessionView) -> Seq<(Seq<char>, Seq<char>)> {
    let token = match session.token {
        Some(t) => seq![("token"@, t)],
        None => Seq::empty(),
    };
    let folder = match session.folder_id {
        Some(f) => seq![("folderId"@, f)],
        None => Seq::empty(),
    };
    token + folder
}

/// The server the host named, or why there is none: its answer counts only
/// with the status of success.
pub fn server_from(status: &str, server: String) -> (r: Result<String, UploadError>)
    ensures
        match r {
            Ok(s) => is_ok(status@) && s@ == server@,
            Err(e) => !is_ok(status@) && e == UploadError::NoServer,
        },
{
    if same_text(status, "ok") {
        Ok(server)
    } else {
        Err(UploadError::NoServer)
    }
}

/// The host's answer to an upload, or that it refused: the answer counts
/// only with the status of success.
pub fn upload_from(status: &str, info: UploadInfo) -> (r: Result<UploadInfo, UploadError>)
    ensures
        match r {
            Ok(i) => is_ok(status@) && i == info,
            Err(e) => !is_ok(status@) && e == UploadError::Refused,
        },
{
    if same_text(status, "ok") {
        Ok(info)
    } else {
        Err(UploadError::Refused)
    }
}

/// The address files are uploaded to on `server`.
pub fn upload_url(server: &str) -> (url: String)
    ensures
        url@ == upload_address(server@),
{
    let mut url = String::from_str("https://");
    url.append(server);
    url.append(".gofile.io/uploadFile");
    url
}

/// Whether an entry met while walking a folder is uploaded.
pub fn wants_entry(is_file: bool, file_name: &str) -> (r: bool)
    ensures
        r == is_wanted(is_file, file_name@),
{
    if !is_file {
        return false;
    }
    let chars = chars_of(file_name);
    !(chars.len() > 0 && chars[0] == '.')
}

impl UploadSession {
    /// A session that has uploaded nothing yet.
    pub fn new() -> (session: UploadSession)
        ensures
            session@ == (UploadSessionView {
                token: None,
                folder_id: None,
                download_page: Seq::empty(),
            }),
    {
        UploadSession { token: None, folder_id: None, download_page: String::new() }
    }

    /// The text fields to send along with the next file.
    pub fn form_fields(&self) -> (fields: Vec<(String, String)>)
        ensures
            fields@.len() == form_fields_of(self@).len(),
            forall|i: int|
                0 <= i < fields@.len() ==> (#[trigger] fields@[i]).0@ == form_fields_of(self@)[i].0
                    && fields@[i].1@ == form_fields_of(self@)[i].1,
    {
        let mut fields: Vec<(String, String)> = Vec::new();
        if let Some(token) = &self.token {
            fields.push((String::from_str("token"), token.clone()));
        }
        if let Some(folder) = &self.folder_id {
            fields.push((String::from_str("folderId"), folder.clone()));
        }
        fields
    }

    /// Takes in the host's answer to the file just uploaded.
    pub fn record(&mut self, info: UploadInfo)
        ensures
            final(self)@ == recorded(old(self)@, info),
    {
        if info.guest_token.is_some() {
            self.token = info.guest_token;
        }
        if self.folder_id.is_none() {
            self.folder_id = Some(info.parent_folder);
        }
        self.download_page = info.download_page;
    }

    /// The page the uploaded files can be fetched from: that of the last
    /// upload. A session that recorded no page uploaded nothing, which is
    /// an error.
    pub fn finish(self) -> (r: Result<String, UploadError>)
        ensures
            match r {
                Ok(page) => page@ == self@.download_page && page@.len() > 0,
                Err(e) => self@.download_page.len() == 0 && e == UploadError::NothingUploaded,
            },
    {
        if self.download_page.as_str().is_empty() {
            Err(UploadError::NothingUploaded)
        } else {
            Ok(self.download_page)
        }
    }
}

} // verus!
