//! Files: uploading, listing, retrieving and deleting the files of an
//! account.

use vstd::prelude::*;
use vstd::string::StringExecFns;

use crate::api::{
    auth_headers, delete_json, delete_request, endpoint_url, get_json, get_request,
    handle_response, joined_url, parse_error_response, remote_error, request_headers,
};
use crate::config::{ClientModel, OpenAIClient};
use crate::error::{ErrorModel, OpenAIError};
use crate::http::{Header, HttpStatus, Request};
use crate::text::append_text;

verus! {

/// The purpose of an uploaded file.
#[derive(Debug, Clone)]
pub enum UploadFilePurpose {
    /// The file is used for fine-tuning.
    FineTune,
    /// Any other purpose, as the API writes it.
    Other(String),
}

impl UploadFilePurpose {
    /// The purpose as the API writes it.
    pub open spec fn text(self) -> Seq<char> {
        match self {
            UploadFilePurpose::FineTune => "fine-tune"@,
            UploadFilePurpose::Other(value) => value@,
        }
    }

    /// The purpose as the API writes it: `fine-tune`, or the text of another
    /// purpose.
    pub fn to_string(&self) -> (text: String)
        ensures
            text@ == self.text(),
    {
        match self {
            UploadFilePurpose::FineTune => String::from_str("fine-tune"),
            UploadFilePurpose::Other(value) => value.clone(),
        }
    }
}

/// A file of the account, as the API describes it.
#[derive(Debug)]
pub struct FileObject {
    /// The identifier of the file, such as `file-abc123`.
    pub id: String,
    /// The object type, usually `file`.
    pub object: String,
    /// The size of the file in bytes.
    pub bytes: u64,
    /// When the file was uploaded, in seconds since the epoch.
    pub created_at: u64,
    /// The name of the file.
    pub filename: String,
    /// The purpose of the file, such as `fine-tune`.
    pub purpose: String,
    /// The status of the file, such as `uploaded`.
    pub status: Option<String>,
    /// Details of the status, if any.
    pub status_details: Option<String>,
}

/// The response of the endpoint that lists the files.
#[derive(Debug)]
pub struct FileListResponse {
    /// The object type, usually `list`.
    pub object: String,
    /// The files.
    pub data: Vec<FileObject>,
}

/// The response of the endpoint that deletes a file.
#[derive(Debug)]
pub struct DeleteFileResponse {
    /// The identifier of the deleted file.
    pub id: String,
    /// The object type, usually `file`.
    pub object: String,
    /// Whether the file was deleted.
    pub deleted: bool,
}

/// The upload of a file as a multipart form: the part `file` with the
/// contents, the name and the media type of the file, and the text field
/// `purpose`.
#[derive(Debug)]
pub struct UploadForm {
    /// The full URL of the `POST` request.
    pub url: String,
    /// The headers of the request.
    pub headers: Vec<Header>,
    /// The name of the file.
    pub file_name: String,
    /// The media type of the file.
    pub media_type: String,
    /// The contents of the file.
    pub contents: Vec<u8>,
    /// The purpose of the file.
    pub purpose: String,
}

/// The mathematical model of an [`UploadForm`].
pub struct UploadModel {
    /// The full URL.
    pub url: Seq<char>,
    /// The headers as pairs of name and value.
    pub headers: Seq<(Seq<char>, Seq<char>)>,
    /// The name of the file.
    pub file_name: Seq<char>,
    /// The media type of the file.
    pub media_type: Seq<char>,
    /// The contents of the file.
    pub contents: Seq<u8>,
    /// The purpose of the file.
    pub purpose: Seq<char>,
}

impl View for UploadForm {
    type V = UploadModel;

    open spec fn view(&self) -> UploadModel {
        UploadModel {
            url: self.url@,
            headers: self.headers@.map_values(|header: Header| header@),
            file_name: self.file_name@,
            media_type: self.media_type@,
            contents: self.contents@,
            purpose: self.purpose@,
        }
    }
}

/// The name under which a file is uploaded: its own name, or `upload.bin`
/// where it has none.
pub open spec fn upload_name(file_name: Option<Seq<char>>) -> Seq<char> {
    match file_name {
        Some(name) => name,
        None => "upload.bin"@,
    }
}

/// The upload of a file with the given name, contents and purpose.
pub open spec fn upload_form(
    client: ClientModel,
    file_name: Option<Seq<char>>,
    contents: Seq<u8>,
    purpose: Seq<char>,
) -> UploadModel {
    UploadModel {
        url: joined_url(client.base_url, "files"@),
        headers: auth_headers(client),
        file_name: upload_name(file_name),
        media_type: "application/octet-stream"@,
        contents,
        purpose,
    }
}

/// Describes the upload of a file: `POST files` as a multipart form.
/// `file_name` is the last component of the file's path, if it has one, and
/// `contents` is the outcome of reading the file: its bytes, or the message
/// of the error that reading gave. Where the file could not be read, the
/// result is a configuration error that carries that message.
pub fn upload_file(
    client: &OpenAIClient,
    file_name: Option<&str>,
    contents: Result<Vec<u8>, String>,
    purpose: UploadFilePurpose,
) -> (result: Result<UploadForm, OpenAIError>)
    ensures
        match contents {
            Ok(bytes) => result is Ok && result->Ok_0@ == upload_form(
                client@,
                match file_name {
                    Some(name) => Some(name@),
                    None => None,
                },
                bytes@,
                purpose.text(),
            ),
            Err(message) => result is Err && result->Err_0@ == ErrorModel::Config(
                "Failed to read file: "@ + message@,
            ),
        },
{
    let bytes = match contents {
        Ok(bytes) => bytes,
        Err(message) => {
            return Err(
                OpenAIError::ConfigError(append_text("Failed to read file: ", message.as_str())),
            );
        },
    };
    let name = match file_name {
        Some(name) => String::from_str(name),
        None => String::from_str("upload.bin"),
    };
    Ok(
        UploadForm {
            url: endpoint_url(client.base_url(), "files"),
            headers: request_headers(client),
            file_name: name,
            media_type: String::from_str("application/octet-stream"),
            contents: bytes,
            purpose: purpose.to_string(),
        },
    )
}

/// Describes the request that lists the files of the account: `GET files`.
pub fn list_files(client: &OpenAIClient) -> (request: Request)
    ensures
        request@ == get_request(client@, "files"@),
{
    get_json(client, "files")
}

/// Describes the request that retrieves the metadata of the file `file_id`:
/// `GET files/{file_id}`.
pub fn retrieve_file_metadata(client: &OpenAIClient, file_id: &str) -> (request: Request)
    ensures
        request@ == get_request(client@, "files/"@ + file_id@),
{
    let endpoint = append_text("files/", file_id);
    get_json(client, endpoint.as_str())
}

/// Describes the request that downloads the content of the file `file_id`:
/// `GET files/{file_id}/content`.
pub fn retrieve_file_content(client: &OpenAIClient, file_id: &str) -> (request: Request)
    ensures
        request@ == get_request(client@, "files/"@ + file_id@ + "/content"@),
{
    let mut endpoint = append_text("files/", file_id);
    endpoint.append("/content");
    get_json(client, endpoint.as_str())
}

/// The result of downloading the content of a file, from the status of the
/// response, its body as bytes and its body as text: the bytes for a success
/// status, and else the error that the body reports.
pub fn file_content_result(status: HttpStatus, content: Vec<u8>, text_body: &str) -> (result: Result<
    Vec<u8>,
    OpenAIError,
>)
    ensures
        status.success() ==> result == Ok::<Vec<u8>, OpenAIError>(content),
        !status.success() ==> result is Err && result->Err_0@ == remote_error(
            status.value(),
            text_body@,
        ),
{
    if status.is_success() {
        Ok(content)
    } else {
        parse_error_response(status, text_body)
    }
}

/// Describes the request that deletes the file `file_id`: `DELETE
/// files/{file_id}`.
pub fn delete_file(client: &OpenAIClient, file_id: &str) -> (request: Request)
    ensures
        request@ == delete_request(client@, "files/"@ + file_id@),
{
    let endpoint = append_text("files/", file_id);
    delete_json(client, endpoint.as_str())
}

/// Gives the result of a call that should yield a [`FileObject`], from the
/// status and the body text of its response: for a success status the body
/// as `decode` decodes it, or a decoding error with the cause; for any other
/// status the error that the body reports.
pub fn handle_file_response<F: FnOnce() -> Result<FileObject, serde_json::Error>>(
    status: HttpStatus,
    text: &str,
    decode: F,
) -> (result: Result<FileObject, OpenAIError>)
    requires
        decode.requires(()),
    ensures
        status.success() ==> exists|decoded: Result<FileObject, serde_json::Error>|
            #[trigger] decode.ensures((), decoded) && match decoded {
                Ok(value) => result == Ok::<FileObject, OpenAIError>(value),
                Err(cause) => result is Err && result->Err_0@ == ErrorModel::Decode(cause),
            },
        !status.success() ==> result is Err && result->Err_0@ == remote_error(
            status.value(),
            text@,
        ),
{
    handle_response(status, text, decode)
}

} // verus!
