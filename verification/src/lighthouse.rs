//! The bearer-token storage provider: content-addressed upload,
//! file-information lookup, and gateway download against fixed routes.

use vstd::prelude::*;
use vstd::string::StringExecFns;

use crate::credential::Credential;
use crate::credential::TokenKind;
use crate::error::TransferError;
use crate::json::failure_text;
use crate::json::json_bool_field;
use crate::json::json_str_field;
use crate::json::spec_failure_text;
use crate::json::spec_json_bool_field;
use crate::json::spec_json_str_field;
use crate::request::FilePart;
use crate::request::FilePartView;
use crate::request::Method;
use crate::request::RequestPlan;
use crate::request::RequestPlanView;

verus! {

/// Connection settings of the provider: a static API key; the routes
/// are fixed, so no endpoint is configured.
#[allow(non_snake_case)]
#[derive(Debug, Clone, PartialEq, Eq)]
pub struct Config {
    pub apiKey: String,
}

/// The failure envelope every non-success response carries.
#[derive(Debug, Clone, PartialEq, Eq)]
pub struct ResponseMessage {
    pub message: String,
}

/// A finished upload: the caller-chosen job identifier and the name,
/// content identifier and size the provider reported.
#[derive(Debug, Clone, PartialEq, Eq)]
pub struct UploadResult {
    pub id: String,
    pub name: String,
    pub cid: String,
    pub size: String,
}

/// What the provider knows about stored content. The MIME type is
/// optional: some responses omit it.
#[allow(non_snake_case)]
#[derive(Debug, Clone, PartialEq, Eq)]
pub struct FileInfoResponse {
    pub fileSizeInBytes: String,
    pub cid: String,
    pub encryption: bool,
    pub fileName: String,
    pub mimeType: Option<String>,
}

/// The upload request: a multipart POST of one streamed file part to
/// the fixed add route, authenticated with the bearer key.
pub open spec fn spec_upload_plan(cred: Credential, dest_file_name: Seq<char>) -> RequestPlanView {
    RequestPlanView {
        method: Method::Post,
        url: "https://node.lighthouse.storage/api/v0/add"@,
        auth: Some(cred.spec_auth_header()),
        query: Seq::empty(),
        json_body: None,
        form_fields: Seq::empty(),
        file_part: Some(
            FilePartView {
                field_name: "FileData"@,
                file_name: dest_file_name,
                mime: "application/octet-stream"@,
            },
        ),
    }
}

/// The file-information request: an unauthenticated GET with the
/// content identifier as a query parameter.
pub open spec fn spec_file_info_plan(cid: Seq<char>) -> RequestPlanView {
    RequestPlanView {
        method: Method::Get,
        url: "https://api.lighthouse.storage/api/lighthouse/file_info"@,
        auth: None,
        query: seq![("cid"@, cid)],
        json_body: None,
        form_fields: Seq::empty(),
        file_part: None,
    }
}

/// The download request: an unauthenticated GET of the gateway route
/// for the content identifier; the response body is the byte stream.
pub open spec fn spec_download_plan(cid: Seq<char>) -> RequestPlanView {
    RequestPlanView {
        method: Method::Get,
        url: "https://gateway.lighthouse.storage/ipfs/"@ + cid,
        auth: None,
        query: Seq::empty(),
        json_body: None,
        form_fields: Seq::empty(),
        file_part: None,
    }
}

/// Treat the configured API key as the session token: key-based
/// providers have no login step, so the credential is built directly,
/// with a bearer kind and no endpoint.
pub fn api_key_credential(config: &Config) -> (c: Credential)
    ensures
        c.spec_token() == config.apiKey@,
        c.spec_kind() == TokenKind::Bearer,
        c.spec_endpoint() == ""@,
{
    proof {
        reveal_strlit("");
        assert(""@ =~= Seq::<char>::empty());
    }
    Credential::new(String::new(), config.apiKey.clone(), TokenKind::Bearer)
}

/// Build the upload request for one local file. The destination name
/// is the remote file name and the multipart part's declared filename,
/// so it must not be empty.
pub fn upload_request(cred: &Credential, dest_file_name: &str) -> (r: RequestPlan)
    requires
        dest_file_name@.len() > 0,
    ensures
        r@ == spec_upload_plan(*cred, dest_file_name@),
{
    let r = RequestPlan {
        method: Method::Post,
        url: String::from_str("https://node.lighthouse.storage/api/v0/add"),
        auth: Some(cred.auth_header()),
        query: Vec::new(),
        json_body: None,
        form_fields: Vec::new(),
        file_part: Some(
            FilePart {
                field_name: String::from_str("FileData"),
                file_name: String::from_str(dest_file_name),
                mime: String::from_str("application/octet-stream"),
            },
        ),
    };
    proof {
        assert(r@ =~= spec_upload_plan(*cred, dest_file_name@));
    }
    r
}

/// Build the file-information request for a content identifier.
pub fn file_info_request(cid: &str) -> (r: RequestPlan)
    ensures
        r@ == spec_file_info_plan(cid@),
{
    let mut query: Vec<(String, String)> = Vec::new();
    query.push((String::from_str("cid"), String::from_str(cid)));
    let r = RequestPlan {
        method: Method::Get,
        url: String::from_str("https://api.lighthouse.storage/api/lighthouse/file_info"),
        auth: None,
        query,
        json_body: None,
        form_fields: Vec::new(),
        file_part: None,
    };
    proof {
        assert(r@.query =~= seq![("cid"@, cid@)]);
        assert(r@ =~= spec_file_info_plan(cid@));
    }
    r
}

/// Build the download request for a content identifier.
pub fn download_request(cid: &str) -> (r: RequestPlan)
    ensures
        r@ == spec_download_plan(cid@),
{
    let r = RequestPlan {
        method: Method::Get,
        url: String::from_str("https://gateway.lighthouse.storage/ipfs/").concat(cid),
        auth: None,
        query: Vec::new(),
        json_body: None,
        form_fields: Vec::new(),
        file_part: None,
    };
    proof {
        assert(r@ =~= spec_download_plan(cid@));
    }
    r
}

/// Turn the upload response into the upload's result. On success the
/// provider reports the stored name, content identifier and size as
/// the string fields `Name`, `Hash` and `Size`; a success body missing
/// any of them is a decode error. `job_id` is the caller-chosen
/// identifier carried through unchanged.
pub fn upload_outcome(success: bool, status: u16, body: &[u8], job_id: &str) -> (r: Result<
    UploadResult,
    TransferError,
>)
    ensures
        r is Ok <==> (success && spec_json_str_field(body@, "Name"@) is Some && spec_json_str_field(
            body@,
            "Hash"@,
        ) is Some && spec_json_str_field(body@, "Size"@) is Some),
        r matches Ok(u) ==> {
            &&& u.id@ == job_id@
            &&& spec_json_str_field(body@, "Name"@) == Some(u.name@)
            &&& spec_json_str_field(body@, "Hash"@) == Some(u.cid@)
            &&& spec_json_str_field(body@, "Size"@) == Some(u.size@)
        },
        r matches Err(e) ==> match e {
            TransferError::UploadFailed(m) => !success && m@ == spec_failure_text(
                status as int,
                body@,
            ),
            TransferError::DecodeError(m) => success && (spec_json_str_field(body@, "Name"@) is None
                || spec_json_str_field(body@, "Hash"@) is None || spec_json_str_field(
                body@,
                "Size"@,
            ) is None) && m@ == "success response missing Name, Hash or Size"@,
            _ => false,
        },
{
    if !success {
        return Err(TransferError::UploadFailed(failure_text(status, body)));
    }
    let name = json_str_field(body, "Name");
    let hash = json_str_field(body, "Hash");
    let size = json_str_field(body, "Size");
    match (name, hash, size) {
        (Some(name), Some(hash), Some(size)) => Ok(
            UploadResult { id: String::from_str(job_id), name, cid: hash, size },
        ),
        _ => Err(
            TransferError::DecodeError(
                String::from_str("success response missing Name, Hash or Size"),
            ),
        ),
    }
}

/// Turn the file-information response into the file's record. The
/// size, content identifier and name are required string fields and
/// the encryption flag a required boolean; the MIME type is kept only
/// when the body carries it as a string.
pub fn file_info_outcome(success: bool, status: u16, body: &[u8]) -> (r: Result<
    FileInfoResponse,
    TransferError,
>)
    ensures
        r is Ok <==> (success && spec_json_str_field(body@, "fileSizeInBytes"@) is Some
            && spec_json_str_field(body@, "cid"@) is Some && spec_json_str_field(
            body@,
            "fileName"@,
        ) is Some && spec_json_bool_field(body@, "encryption"@) is Some),
        r matches Ok(info) ==> {
            &&& spec_json_str_field(body@, "fileSizeInBytes"@) == Some(info.fileSizeInBytes@)
            &&& spec_json_str_field(body@, "cid"@) == Some(info.cid@)
            &&& spec_json_str_field(body@, "fileName"@) == Some(info.fileName@)
            &&& spec_json_bool_field(body@, "encryption"@) == Some(info.encryption)
            &&& match info.mimeType {
                Some(m) => spec_json_str_field(body@, "mimeType"@) == Some(m@),
                None => spec_json_str_field(body@, "mimeType"@) is None,
            }
        },
        r matches Err(e) ==> match e {
            TransferError::InfoFailed(m) => !success && m@ == spec_failure_text(
                status as int,
                body@,
            ),
            TransferError::DecodeError(m) => success && (spec_json_str_field(
                body@,
                "fileSizeInBytes"@,
            ) is None || spec_json_str_field(body@, "cid"@) is None || spec_json_str_field(
                body@,
                "fileName"@,
            ) is None || spec_json_bool_field(body@, "encryption"@) is None) && m@
                == "success response missing a required file info field"@,
            _ => false,
        },
{
    if !success {
        return Err(TransferError::InfoFailed(failure_text(status, body)));
    }
    let size = json_str_field(body, "fileSizeInBytes");
    let cid = json_str_field(body, "cid");
    let file_name = json_str_field(body, "fileName");
    let encryption = json_bool_field(body, "encryption");
    let mime_type = json_str_field(body, "mimeType");
    match (size, cid, file_name, encryption) {
        (Some(size), Some(cid), Some(file_name), Some(encryption)) => Ok(
            FileInfoResponse {
                fileSizeInBytes: size,
                cid,
                encryption,
                fileName: file_name,
                mimeType: mime_type,
            },
        ),
        _ => Err(
            TransferError::DecodeError(
                String::from_str("success response missing a required file info field"),
            ),
        ),
    }
}

/// Decode the failure envelope of any response into its message.
pub fn decode_response_message(body: &[u8]) -> (r: Option<ResponseMessage>)
    ensures
        match r {
            Some(rm) => spec_json_str_field(body@, "message"@) == Some(rm.message@),
            None => spec_json_str_field(body@, "message"@) is None,
        },
{
    match json_str_field(body, "message") {
        Some(m) => Some(ResponseMessage { message: m }),
        None => None,
    }
}

} // verus!
