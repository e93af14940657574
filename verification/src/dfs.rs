//! The cookie-session storage provider: login, pod lifecycle, and
//! chunked file transfer against a user-supplied gateway endpoint.
//!
//! Every call is split into a request builder, which turns the
//! credential and the call's arguments into a [`RequestPlan`], and an
//! outcome function, which turns the response's status and body into
//! the call's typed result. The I/O layer in between only carries the
//! plan out and hands the plain values back.

use vstd::prelude::*;
use vstd::string::StringExecFns;
use vstd::utf8::encode_utf8;

use crate::credential::Credential;
use crate::credential::TokenKind;
use crate::error::TransferError;
use crate::json::failure_text;
use crate::json::json_object2;
use crate::json::json_str_field;
use crate::json::spec_failure_text;
use crate::json::spec_json_object2;
use crate::json::spec_json_str_field;
use crate::request::FilePart;
use crate::request::FilePartView;
use crate::request::Method;
use crate::request::RequestPlan;
use crate::request::RequestPlanView;

verus! {

/// Connection settings of the provider: the gateway endpoint and the
/// user's login credentials.
#[derive(Debug, Clone, PartialEq, Eq)]
pub struct Config {
    pub endpoint: String,
    pub username: String,
    pub password: String,
}

/// The reference under which a shared pod can be imported elsewhere.
#[allow(non_snake_case)]
#[derive(Debug, Clone, PartialEq, Eq)]
pub struct SharedPod {
    pub podSharingReference: String,
}

/// The failure envelope every non-success response carries.
#[derive(Debug, Clone, PartialEq, Eq)]
pub struct ResponseMessage {
    pub message: String,
}

/// The JSON body `{"podName": name, "password": password}` shared by
/// the pod lifecycle calls.
pub open spec fn spec_pod_body(pod_name: Seq<char>, password: Seq<char>) -> Seq<u8> {
    spec_json_object2(
        encode_utf8("podName"@),
        encode_utf8(pod_name),
        encode_utf8("password"@),
        encode_utf8(password),
    )
}

/// The login request: a POST of `{"username": ..., "password": ...}`
/// to the login route, with no credential attached yet.
pub open spec fn spec_login_plan(config: Config) -> RequestPlanView {
    RequestPlanView {
        method: Method::Post,
        url: config.endpoint@ + "/v2/user/login"@,
        auth: None,
        query: Seq::empty(),
        json_body: Some(
            spec_json_object2(
                encode_utf8("username"@),
                encode_utf8(config.username@),
                encode_utf8("password"@),
                encode_utf8(config.password@),
            ),
        ),
        form_fields: Seq::empty(),
        file_part: None,
    }
}

/// A pod lifecycle request: a POST of the pod body to the given route,
/// with the credential attached.
pub open spec fn spec_pod_plan(
    cred: Credential,
    route: Seq<char>,
    pod_name: Seq<char>,
    password: Seq<char>,
) -> RequestPlanView {
    RequestPlanView {
        method: Method::Post,
        url: cred.spec_endpoint() + route,
        auth: Some(cred.spec_auth_header()),
        query: Seq::empty(),
        json_body: Some(spec_pod_body(pod_name, password)),
        form_fields: Seq::empty(),
        file_part: None,
    }
}

/// The pod import request: a GET of the receive route with the sharing
/// reference as a query parameter, with the credential attached.
pub open spec fn spec_fork_plan(cred: Credential, sharing_ref: Seq<char>) -> RequestPlanView {
    RequestPlanView {
        method: Method::Get,
        url: cred.spec_endpoint() + "/v1/pod/receive"@,
        auth: Some(cred.spec_auth_header()),
        query: seq![("sharingRef"@, sharing_ref)],
        json_body: None,
        form_fields: Seq::empty(),
        file_part: None,
    }
}

/// The upload request: a multipart POST with the pod name, destination
/// directory and block-size hint as plain fields, and the local file
/// as the one streamed part.
pub open spec fn spec_upload_plan(
    cred: Credential,
    pod_name: Seq<char>,
    dest_path: Seq<char>,
    local_filename: Seq<char>,
) -> RequestPlanView {
    RequestPlanView {
        method: Method::Post,
        url: cred.spec_endpoint() + "/v1/file/upload"@,
        auth: Some(cred.spec_auth_header()),
        query: Seq::empty(),
        json_body: None,
        form_fields: seq![
            ("podName"@, pod_name),
            ("dirPath"@, dest_path),
            ("blockSize"@, "1000000"@),
        ],
        file_part: Some(
            FilePartView {
                field_name: "files"@,
                file_name: local_filename,
                mime: "application/octet-stream"@,
            },
        ),
    }
}

/// The download request: a multipart POST selecting the pod and the
/// remote path; the response body is the file's byte stream.
pub open spec fn spec_download_plan(
    cred: Credential,
    pod_name: Seq<char>,
    from: Seq<char>,
) -> RequestPlanView {
    RequestPlanView {
        method: Method::Post,
        url: cred.spec_endpoint() + "/v1/file/download"@,
        auth: Some(cred.spec_auth_header()),
        query: Seq::empty(),
        json_body: None,
        form_fields: seq![("podName"@, pod_name), ("filePath"@, from)],
        file_part: None,
    }
}

/// Build the login request for `config`.
pub fn login_request(config: &Config) -> (r: RequestPlan)
    ensures
        r@ == spec_login_plan(*config),
{
    let r = RequestPlan {
        method: Method::Post,
        url: config.endpoint.clone().concat("/v2/user/login"),
        auth: None,
        query: Vec::new(),
        json_body: Some(
            json_object2(
                "username",
                config.username.as_str(),
                "password",
                config.password.as_str(),
            ),
        ),
        form_fields: Vec::new(),
        file_part: None,
    };
    proof {
        assert(r@ =~= spec_login_plan(*config));
    }
    r
}

/// Turn the login response into a credential. The exchange succeeds
/// exactly when the status was a success and the response carried a
/// `Set-Cookie` header; the credential then holds that cookie for
/// `config`'s endpoint. A rejected login surfaces the envelope's
/// decoded message; a success response without a cookie is equally an
/// authentication failure.
pub fn login_outcome(
    config: &Config,
    success: bool,
    status: u16,
    body: &[u8],
    set_cookie: Option<String>,
) -> (r: Result<Credential, TransferError>)
    ensures
        r is Ok <==> (success && set_cookie is Some),
        r matches Ok(c) ==> {
            &&& set_cookie matches Some(t) && c.spec_token() == t@
            &&& c.spec_endpoint() == config.endpoint@
            &&& c.spec_kind() == TokenKind::Cookie
        },
        r matches Err(e) ==> e matches TransferError::AuthenticationFailed(m) && m@ == (
        if success {
            "response carried no set-cookie header"@
        } else {
            spec_failure_text(status as int, body@)
        }),
{
    if !success {
        return Err(TransferError::AuthenticationFailed(failure_text(status, body)));
    }
    match set_cookie {
        Some(t) => Ok(Credential::new(config.endpoint.clone(), t, TokenKind::Cookie)),
        None => Err(
            TransferError::AuthenticationFailed(
                String::from_str("response carried no set-cookie header"),
            ),
        ),
    }
}

/// Shared builder of the pod lifecycle requests.
fn pod_plan(cred: &Credential, route: &str, pod_name: &str, password: &str) -> (r: RequestPlan)
    ensures
        r@ == spec_pod_plan(*cred, route@, pod_name@, password@),
{
    let r = RequestPlan {
        method: Method::Post,
        url: cred.endpoint().clone().concat(route),
        auth: Some(cred.auth_header()),
        query: Vec::new(),
        json_body: Some(json_object2("podName", pod_name, "password", password)),
        form_fields: Vec::new(),
        file_part: None,
    };
    proof {
        assert(r@ =~= spec_pod_plan(*cred, route@, pod_name@, password@));
    }
    r
}

/// Build the request that creates a pod.
pub fn new_pod_request(config: &Config, cred: &Credential, pod_name: &str) -> (r: RequestPlan)
    ensures
        r@ == spec_pod_plan(*cred, "/v1/pod/new"@, pod_name@, config.password@),
{
    pod_plan(cred, "/v1/pod/new", pod_name, config.password.as_str())
}

/// Build the request that opens a pod.
pub fn open_pod_request(config: &Config, cred: &Credential, pod_name: &str) -> (r: RequestPlan)
    ensures
        r@ == spec_pod_plan(*cred, "/v1/pod/open"@, pod_name@, config.password@),
{
    pod_plan(cred, "/v1/pod/open", pod_name, config.password.as_str())
}

/// Build the request that shares a pod.
pub fn share_pod_request(config: &Config, cred: &Credential, pod_name: &str) -> (r: RequestPlan)
    ensures
        r@ == spec_pod_plan(*cred, "/v1/pod/share"@, pod_name@, config.password@),
{
    pod_plan(cred, "/v1/pod/share", pod_name, config.password.as_str())
}

/// Build the request that imports a pod from a sharing reference.
pub fn fork_pod_request(cred: &Credential, sharing_ref: &str) -> (r: RequestPlan)
    ensures
        r@ == spec_fork_plan(*cred, sharing_ref@),
{
    let mut query: Vec<(String, String)> = Vec::new();
    query.push((String::from_str("sharingRef"), String::from_str(sharing_ref)));
    let r = RequestPlan {
        method: Method::Get,
        url: cred.endpoint().clone().concat("/v1/pod/receive"),
        auth: Some(cred.auth_header()),
        query,
        json_body: None,
        form_fields: Vec::new(),
        file_part: None,
    };
    proof {
        assert(r@.query =~= seq![("sharingRef"@, sharing_ref@)]);
        assert(r@ =~= spec_fork_plan(*cred, sharing_ref@));
    }
    r
}

/// Build the upload request for one local file. The file's name is
/// also the multipart part's declared filename, so it must not be
/// empty.
pub fn upload_request(
    cred: &Credential,
    pod_name: &str,
    dest_path: &str,
    local_filename: &str,
) -> (r: RequestPlan)
    requires
        local_filename@.len() > 0,
    ensures
        r@ == spec_upload_plan(*cred, pod_name@, dest_path@, local_filename@),
{
    let mut form_fields: Vec<(String, String)> = Vec::new();
    form_fields.push((String::from_str("podName"), String::from_str(pod_name)));
    form_fields.push((String::from_str("dirPath"), String::from_str(dest_path)));
    form_fields.push((String::from_str("blockSize"), String::from_str("1000000")));
    let r = RequestPlan {
        method: Method::Post,
        url: cred.endpoint().clone().concat("/v1/file/upload"),
        auth: Some(cred.auth_header()),
        query: Vec::new(),
        json_body: None,
        form_fields,
        file_part: Some(
            FilePart {
                field_name: String::from_str("files"),
                file_name: String::from_str(local_filename),
                mime: String::from_str("application/octet-stream"),
            },
        ),
    };
    proof {
        assert(r@.form_fields =~= seq![
            ("podName"@, pod_name@),
            ("dirPath"@, dest_path@),
            ("blockSize"@, "1000000"@),
        ]);
        assert(r@ =~= spec_upload_plan(*cred, pod_name@, dest_path@, local_filename@));
    }
    r
}

/// Build the download request for one remote file.
pub fn download_request(cred: &Credential, pod_name: &str, from: &str) -> (r: RequestPlan)
    ensures
        r@ == spec_download_plan(*cred, pod_name@, from@),
{
    let mut form_fields: Vec<(String, String)> = Vec::new();
    form_fields.push((String::from_str("podName"), String::from_str(pod_name)));
    form_fields.push((String::from_str("filePath"), String::from_str(from)));
    let r = RequestPlan {
        method: Method::Post,
        url: cred.endpoint().clone().concat("/v1/file/download"),
        auth: Some(cred.auth_header()),
        query: Vec::new(),
        json_body: None,
        form_fields,
        file_part: None,
    };
    proof {
        assert(r@.form_fields =~= seq![("podName"@, pod_name@), ("filePath"@, from@)]);
        assert(r@ =~= spec_download_plan(*cred, pod_name@, from@));
    }
    r
}

/// Turn a pod lifecycle response into the call's result: success
/// exactly on a success status, and otherwise the failure envelope's
/// decoded message.
pub fn pod_outcome(success: bool, status: u16, body: &[u8]) -> (r: Result<(), TransferError>)
    ensures
        r is Ok <==> success,
        r matches Err(e) ==> e matches TransferError::NamespaceFailed(m) && m@
            == spec_failure_text(status as int, body@),
{
    if success {
        Ok(())
    } else {
        Err(TransferError::NamespaceFailed(failure_text(status, body)))
    }
}

/// Turn the share-pod response into the sharing reference: on success
/// the reference is read from the body's `podSharingReference` field,
/// and a success body without one is a decode error.
pub fn share_pod_outcome(success: bool, status: u16, body: &[u8]) -> (r: Result<
    SharedPod,
    TransferError,
>)
    ensures
        r is Ok <==> (success && spec_json_str_field(body@, "podSharingReference"@) is Some),
        r matches Ok(sp) ==> spec_json_str_field(body@, "podSharingReference"@) == Some(
            sp.podSharingReference@,
        ),
        r matches Err(e) ==> match e {
            TransferError::NamespaceFailed(m) => !success && m@ == spec_failure_text(
                status as int,
                body@,
            ),
            TransferError::DecodeError(m) => success && spec_json_str_field(
                body@,
                "podSharingReference"@,
            ) is None && m@ == "response carried no podSharingReference field"@,
            _ => false,
        },
{
    if !success {
        Err(TransferError::NamespaceFailed(failure_text(status, body)))
    } else {
        match json_str_field(body, "podSharingReference") {
            Some(reference) => Ok(SharedPod { podSharingReference: reference }),
            None => Err(
                TransferError::DecodeError(
                    String::from_str("response carried no podSharingReference field"),
                ),
            ),
        }
    }
}

/// Turn an upload response into the call's result: success exactly on
/// a success status, and otherwise the failure envelope's message.
pub fn upload_outcome(success: bool, status: u16, body: &[u8]) -> (r: Result<(), TransferError>)
    ensures
        r is Ok <==> success,
        r matches Err(e) ==> e matches TransferError::UploadFailed(m) && m@ == spec_failure_text(
            status as int,
            body@,
        ),
{
    if success {
        Ok(())
    } else {
        Err(TransferError::UploadFailed(failure_text(status, body)))
    }
}

/// Decode the failure envelope of any response into its message.
pub fn decode_response_message(body: &[u8]) -> (r: Option<ResponseMessage>)
    ensures
        match r {
            Some(rm) => spec_json_str_field(body@, "message"@) == Some(rm.message@),
            None => spec_json_str_field(body@, "message"@) is None,
        },
{
    match json_str_field(body, "message") {
        Some(m) => Some(ResponseMessage { message: m }),
        None => None,
    }
}

/// Credential immutability: every request built from one credential
/// attaches the same authentication header, the pure function
/// [`Credential::spec_auth_header`] of the credential obtained at
/// login. Two sequential calls with the same credential therefore
/// attach identical auth state, and — since every builder takes the
/// credential by shared reference — neither changes anything a third,
/// concurrent holder of the credential could observe.
pub proof fn lemma_credential_immutability(
    cred: Credential,
    route1: Seq<char>,
    route2: Seq<char>,
    pod1: Seq<char>,
    pod2: Seq<char>,
    password: Seq<char>,
)
    ensures
        spec_pod_plan(cred, route1, pod1, password).auth == Some(cred.spec_auth_header()),
        spec_pod_plan(cred, route2, pod2, password).auth == Some(cred.spec_auth_header()),
        spec_pod_plan(cred, route1, pod1, password).auth == spec_pod_plan(
            cred,
            route2,
            pod2,
            password,
        ).auth,
        spec_upload_plan(cred, pod1, pod2, password).auth == Some(cred.spec_auth_header()),
        spec_download_plan(cred, pod1, pod2).auth == Some(cred.spec_auth_header()),
        spec_fork_plan(cred, pod1).auth == Some(cred.spec_auth_header()),
{
}

} // verus!
