//! The request/response contract of the presigned upload: deciding whether
//! the server's answer authorises an upload, and assembling the multipart
//! form that carries the encoded audio to the storage provider.
use vstd::prelude::*;
use vstd::utf8::encode_utf8;
use reqwest::multipart::{Form, Part};

verus! {

#[verifier::external_type_specification]
#[verifier::external_body]
pub struct ExForm(reqwest::multipart::Form);

#[verifier::external_type_specification]
#[verifier::external_body]
pub struct ExPart(reqwest::multipart::Part);

#[verifier::external_type_specification]
#[verifier::external_body]
pub struct ExReqwestError(reqwest::Error);

/// What a form holds: each part's name, body bytes and media type (when one
/// was set), in the order the parts were added.
pub uninterp spec fn form_fields(form: reqwest::multipart::Form) -> Seq<
    (Seq<char>, Seq<u8>, Option<Seq<char>>),
>;

/// The body bytes a part carries.
pub uninterp spec fn part_body(part: reqwest::multipart::Part) -> Seq<u8>;

/// The media type set on a part, if any.
pub uninterp spec fn part_mime(part: reqwest::multipart::Part) -> Option<Seq<char>>;

/// Relies on `reqwest::multipart::Form::new`: a form without any part.
#[verifier::external_body]
fn form_new() -> (r: Form)
    ensures
        form_fields(r) == Seq::<(Seq<char>, Seq<u8>, Option<Seq<char>>)>::empty(),
{
    Form::new()
}

/// Relies on `reqwest::multipart::Form::text`: appends a part named `name`
/// whose body is `value` as UTF-8 and which has no media type (`Part::text`
/// over the owned string).
#[verifier::external_body]
fn form_text(form: Form, name: String, value: String) -> (r: Form)
    ensures
        form_fields(r) == form_fields(form).push((name@, encode_utf8(value@), None)),
{
    form.text(name, value)
}

/// Relies on `reqwest::multipart::Form::part`: appends `part` under `name`
/// to the form's list of fields.
#[verifier::external_body]
fn form_part(form: Form, name: String, part: Part) -> (r: Form)
    ensures
        form_fields(r) == form_fields(form).push((name@, part_body(part), part_mime(part))),
{
    form.part(name, part)
}

/// Relies on `reqwest::multipart::Part::bytes`: a part whose body is `bytes`,
/// without a media type.
#[verifier::external_body]
fn part_bytes(bytes: Vec<u8>) -> (r: Part)
    ensures
        part_body(r) == bytes@,
        part_mime(r) is None,
{
    Part::bytes(bytes)
}

/// Relies on `reqwest::multipart::Part::mime_str`: sets the part's media
/// type, keeping its body, or fails when `mime` does not parse (the mime
/// crate's parser accepts `application/octet-stream`).
#[verifier::external_body]
fn part_mime_str(part: Part, mime: &str) -> (r: Result<Part, reqwest::Error>)
    ensures
        r is Ok ==> part_body(r->Ok_0) == part_body(part),
        mime@ == "application/octet-stream"@ ==> r is Ok && part_mime(r->Ok_0) == Some(
            "application/octet-stream"@,
        ),
{
    part.mime_str(mime)
}

/// The request for an upload destination.
#[derive(Debug, Clone)]
pub struct GeneratePresignedUploadUrlRequestData {
    pub filename: String,
    pub filesize: usize,
}

/// Signed form fields issued by the server for a direct upload.
#[derive(Debug, Clone)]
pub struct Fields {
    pub acl: String,
    pub key: String,
    pub policy: String,
    pub x_amz_algorithm: String,
    pub x_amz_credential: String,
    pub x_amz_date: String,
    pub x_amz_signature: String,
}

/// The `data` member of the server's answer.
#[derive(Debug, Clone)]
pub struct ResponseData {
    pub fields: Option<Fields>,
    pub url: String,
}

/// The server's answer to a request for an upload destination.
#[derive(Debug, Clone)]
pub struct GeneratePresignedUploadUrlResponse {
    pub success: bool,
    pub error_key: Option<String>,
    pub expected_file_url: Option<String>,
    pub data: Option<ResponseData>,
}

/// Where to upload, and the signed fields that authorise it.
#[derive(Debug, Clone)]
pub struct UploadDescriptor {
    pub url: String,
    pub fields: Fields,
}

/// The server authorised the upload: it reports success and sent both the
/// destination and its fields.
pub open spec fn is_authorized(response: GeneratePresignedUploadUrlResponse) -> bool {
    &&& response.success
    &&& response.data is Some
    &&& response.data->Some_0.fields is Some
}

/// The server's verdict on a request for an upload destination.
#[derive(Debug, Clone)]
pub enum UploadAuthorization {
    /// The destination and the signed fields to upload with.
    Authorized(UploadDescriptor),
    /// No upload may proceed; the server's error key, when it sent one.
    Denied(Option<String>),
}

/// Reads the server's answer: `Authorized` with its descriptor exactly when
/// the answer reports success and carries both destination and fields,
/// `Denied` with the answer's error key otherwise.
pub fn authorize_upload(response: GeneratePresignedUploadUrlResponse) -> (r: UploadAuthorization)
    ensures
        is_authorized(response) <==> r is Authorized,
        match r {
            UploadAuthorization::Authorized(d) => {
                &&& d.url == response.data->Some_0.url
                &&& d.fields == response.data->Some_0.fields->Some_0
            },
            UploadAuthorization::Denied(key) => key == response.error_key,
        },
{
    if !response.success {
        return UploadAuthorization::Denied(response.error_key);
    }
    match response.data {
        Some(data) => match data.fields {
            Some(fields) => UploadAuthorization::Authorized(UploadDescriptor { url: data.url, fields }),
            None => UploadAuthorization::Denied(response.error_key),
        },
        None => UploadAuthorization::Denied(response.error_key),
    }
}

/// The text parts of the submission form, name and value, in the order the
/// storage provider receives them.
pub open spec fn text_parts(f: Fields) -> Seq<(Seq<char>, Seq<char>)> {
    seq![
        ("key"@, f.key@),
        ("acl"@, f.acl@),
        ("policy"@, f.policy@),
        ("x-amz-algorithm"@, f.x_amz_algorithm@),
        ("x-amz-credential"@, f.x_amz_credential@),
        ("x-amz-date"@, f.x_amz_date@),
        ("x-amz-signature"@, f.x_amz_signature@),
    ]
}

/// The parts of the submission form, name and body: the text parts with
/// their values as UTF-8, then the payload in a part named `file`.
pub open spec fn submission_fields(f: Fields, payload: Seq<u8>) -> Seq<
    (Seq<char>, Seq<u8>, Option<Seq<char>>),
> {
    text_parts(f).map_values(
        |p: (Seq<char>, Seq<char>)| (p.0, encode_utf8(p.1), None::<Seq<char>>),
    ).push(("file"@, payload, Some("application/octet-stream"@)))
}

/// Builds the `(name, value)` pairs of `text_parts(*fields)`.
pub fn form_text_fields(fields: &Fields) -> (r: Vec<(String, String)>)
    ensures
        r@.len() == text_parts(*fields).len(),
        forall|k: int|
            0 <= k < r@.len() ==> (#[trigger] r@[k]).0@ == text_parts(*fields)[k].0 && r@[k].1@
                == text_parts(*fields)[k].1,
{
    let mut r: Vec<(String, String)> = Vec::new();
    r.push(("key".to_string(), fields.key.clone()));
    r.push(("acl".to_string(), fields.acl.clone()));
    r.push(("policy".to_string(), fields.policy.clone()));
    r.push(("x-amz-algorithm".to_string(), fields.x_amz_algorithm.clone()));
    r.push(("x-amz-credential".to_string(), fields.x_amz_credential.clone()));
    r.push(("x-amz-date".to_string(), fields.x_amz_date.clone()));
    r.push(("x-amz-signature".to_string(), fields.x_amz_signature.clone()));
    r
}

/// A multipart form ready to be posted to `url`.
pub struct Submission {
    pub url: String,
    pub form: Form,
}

/// Assembles the multipart submission for `descriptor`: each signed field as
/// a text part, then `payload` as a binary part named `file` of media type
/// `application/octet-stream`.
pub fn build_submission(descriptor: UploadDescriptor, payload: Vec<u8>) -> (s: Submission)
    ensures
        s.url@ == descriptor.url@,
        form_fields(s.form) == submission_fields(descriptor.fields, payload@),
{
    let parts = form_text_fields(&descriptor.fields);
    let ghost expected = text_parts(descriptor.fields).map_values(
        |p: (Seq<char>, Seq<char>)| (p.0, encode_utf8(p.1), None::<Seq<char>>),
    );
    assert forall|k: int| 0 <= k < expected.len() implies expected[k] == ((#[trigger] parts@[k]).0@, encode_utf8(parts@[k].1@), None::<Seq<char>>) by {}
    let mut form = form_new();
    let mut i: usize = 0;
    while i < parts.len()
        invariant
            i <= parts@.len(),
            expected.len() == parts@.len(),
            forall|k: int| 0 <= k < expected.len() ==> expected[k] == ((#[trigger] parts@[k]).0@, encode_utf8(parts@[k].1@), None::<Seq<char>>),
            form_fields(form) == expected.take(i as int),
        decreases parts@.len() - i,
    {
        let name = parts[i].0.clone();
        let value = parts[i].1.clone();
        form = form_text(form, name, value);
        proof {
            assert(expected.take(i as int + 1) =~= expected.take(i as int).push(expected[i as int]));
        }
        i = i + 1;
    }
    proof {
        assert(expected.take(i as int) =~= expected);
    }
    let part = part_mime_str(part_bytes(payload), "application/octet-stream").unwrap();
    let form = form_part(form, "file".to_string(), part);
    Submission { url: descriptor.url, form }
}

} // verus!
