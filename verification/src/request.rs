//! Outbound requests as plain data.
//!
//! The library never performs network I/O itself: each call is
//! described as a [`RequestPlan`] — method, URL, auth header, query
//! parameters, JSON body bytes, multipart text fields and at most one
//! streamed file part — and the surrounding I/O layer carries it out.

use vstd::prelude::*;

verus! {

/// The HTTP method of a planned request.
#[derive(Clone, Copy, Debug, PartialEq, Eq, Structural)]
pub enum Method {
    Get,
    Post,
}

/// The one streamed file part of a multipart upload: the form field it
/// is posted under, the file name it declares, and its MIME type.
#[derive(Debug, Clone)]
pub struct FilePart {
    pub field_name: String,
    pub file_name: String,
    pub mime: String,
}

/// Mathematical model of a [`FilePart`].
#[verifier::ext_equal]
pub struct FilePartView {
    pub field_name: Seq<char>,
    pub file_name: Seq<char>,
    pub mime: Seq<char>,
}

impl View for FilePart {
    type V = FilePartView;

    open spec fn view(&self) -> FilePartView {
        FilePartView {
            field_name: self.field_name@,
            file_name: self.file_name@,
            mime: self.mime@,
        }
    }
}

/// A fully determined outbound request, as plain data.
#[derive(Debug)]
pub struct RequestPlan {
    pub method: Method,
    pub url: String,
    /// Header name and value attaching a credential, when one is required.
    pub auth: Option<(String, String)>,
    pub query: Vec<(String, String)>,
    /// An `application/json` body, when the request carries one.
    pub json_body: Option<Vec<u8>>,
    /// Plain-text fields of a multipart form, in order.
    pub form_fields: Vec<(String, String)>,
    /// The streamed file part of a multipart form, when there is one.
    pub file_part: Option<FilePart>,
}

/// Mathematical model of a [`RequestPlan`].
#[verifier::ext_equal]
pub struct RequestPlanView {
    pub method: Method,
    pub url: Seq<char>,
    pub auth: Option<(Seq<char>, Seq<char>)>,
    pub query: Seq<(Seq<char>, Seq<char>)>,
    pub json_body: Option<Seq<u8>>,
    pub form_fields: Seq<(Seq<char>, Seq<char>)>,
    pub file_part: Option<FilePartView>,
}

impl View for RequestPlan {
    type V = RequestPlanView;

    open spec fn view(&self) -> RequestPlanView {
        RequestPlanView {
            method: self.method,
            url: self.url@,
            auth: match self.auth {
                Some(h) => Some((h.0@, h.1@)),
                None => None,
            },
            query: self.query.deep_view(),
            json_body: match self.json_body {
                Some(b) => Some(b@),
                None => None,
            },
            form_fields: self.form_fields.deep_view(),
            file_part: match self.file_part {
                Some(p) => Some(p@),
                None => None,
            },
        }
    }
}

} // verus!
