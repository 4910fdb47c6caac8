//! The image host: what to send it and how to read what it answers.
//!
//! Every call is a multipart form posted to one address. The host answers
//! with a JSON object; an upload is answered with the address of the file
//! under `fileURL`, the creation of an album with the short name of the
//! album under `short`.

use crate::text::{append_chars, chars_of, string_of};
use serde_json::Value;
use vstd::prelude::*;

verus! {

/// `serde_json::Error`, taken as it is: that a body could not be read is
/// all that is made of it.
#[verifier::external_type_specification]
#[verifier::external_body]
pub struct ExJsonError(serde_json::Error);

/// The member `key` of the JSON object that `body` is the text of, where
/// that member is a string, as `serde_json` reads it. The outer `None`
/// stands for a body that is no JSON text, the inner one for a value that
/// is no object, an object without the member, and a member that is no
/// string.
pub uninterp spec fn json_text_member(body: Seq<u8>, key: Seq<char>) -> Option<Option<Seq<char>>>;

pub open spec fn member_view(found: Result<Option<String>, serde_json::Error>) -> Option<
    Option<Seq<char>>,
> {
    match found {
        Ok(Some(text)) => Some(Some(text@)),
        Ok(None) => Some(None),
        Err(_) => None,
    }
}

/// `serde_json::from_slice` into a `Value`, its index by a key, and
/// `Value::as_str`: reads the body as JSON and hands out the member `key`
/// where it is a string.
#[verifier::external_body]
fn text_member(body: &[u8], key: &str) -> (found: Result<Option<String>, serde_json::Error>)
    ensures
        member_view(found) == json_text_member(body@, key@),
{
    match serde_json::from_slice::<Value>(body) {
        Ok(value) => match value[key].as_str() {
            Some(text) => Ok(Some(text.to_string())),
            None => Ok(None),
        },
        Err(error) => Err(error),
    }
}

/// Why a call to the host came to nothing.
#[derive(Clone, Copy, Debug, PartialEq, Eq, Structural)]
pub enum CatboxError {
    /// The host refused a file.
    UploadFile,
    /// The host refused an address to fetch a file from.
    UploadUrl,
    /// The host answered an upload without the address of the file.
    NoFileUrl,
    /// The host refused to create an album, or answered without its name.
    CreateAlbum,
    /// The host refused to edit an album.
    EditAlbum,
    /// The host answered with something that is no JSON.
    Decode,
}

impl CatboxError {
    /// What to tell of the error.
    pub fn message(&self) -> (text: String)
        ensures
            text@ == match *self {
                CatboxError::UploadFile => "Failed to upload file"@,
                CatboxError::UploadUrl => "Failed to upload URL"@,
                CatboxError::NoFileUrl => "Failed to get file URL from response"@,
                CatboxError::CreateAlbum => "Failed to create album"@,
                CatboxError::EditAlbum => "Failed to edit album"@,
                CatboxError::Decode => "Failed to decode response"@,
            },
    {
        match self {
            CatboxError::UploadFile => "Failed to upload file".to_owned(),
            CatboxError::UploadUrl => "Failed to upload URL".to_owned(),
            CatboxError::NoFileUrl => "Failed to get file URL from response".to_owned(),
            CatboxError::CreateAlbum => "Failed to create album".to_owned(),
            CatboxError::EditAlbum => "Failed to edit album".to_owned(),
            CatboxError::Decode => "Failed to decode response".to_owned(),
        }
    }
}

/// What a field of a form holds.
#[derive(Debug)]
pub enum Part {
    /// A text.
    Text(String),
    /// The content of the file at this path.
    File(String),
    /// These bytes, written as text.
    Bytes(String),
}

pub enum PartView {
    Text(Seq<char>),
    File(Seq<char>),
    Bytes(Seq<char>),
}

impl View for Part {
    type V = PartView;

    open spec fn view(&self) -> PartView {
        match self {
            Part::Text(text) => PartView::Text(text@),
            Part::File(path) => PartView::File(path@),
            Part::Bytes(text) => PartView::Bytes(text@),
        }
    }
}

/// A field of a multipart form.
#[derive(Debug)]
pub struct Field {
    pub name: String,
    pub part: Part,
}

impl View for Field {
    type V = (Seq<char>, PartView);

    open spec fn view(&self) -> (Seq<char>, PartView) {
        (self.name@, self.part@)
    }
}

pub open spec fn form_view(fields: Seq<Field>) -> Seq<(Seq<char>, PartView)> {
    fields.map_values(|f: Field| f@)
}

/// The addresses with a space between each two.
pub open spec fn joined(urls: Seq<Seq<char>>) -> Seq<char>
    decreases urls.len(),
{
    if urls.len() == 0 {
        Seq::empty()
    } else if urls.len() == 1 {
        urls[0]
    } else {
        joined(urls.drop_last()) + seq![' '] + urls.last()
    }
}

/// The addresses with a space between each two.
pub fn join(urls: &Vec<String>) -> (text: String)
    ensures
        text@ == joined(urls.deep_view()),
{
    let mut text: Vec<char> = Vec::new();
    let mut i: usize = 0;
    while i < urls.len()
        invariant
            i <= urls@.len(),
            text@ == joined(urls.deep_view().take(i as int)),
        decreases urls@.len() - i,
    {
        let ghost before = text@;
        if i > 0 {
            text.push(' ');
        }
        append_chars(&mut text, &chars_of(urls[i].as_str()));
        proof {
            let all = urls.deep_view();
            assert(all.take(i + 1).drop_last() =~= all.take(i as int));
            assert(all.take(i + 1).last() == urls@[i as int]@);
            if i == 0 {
                assert(all.take(1)[0] == urls@[0]@);
                assert(text@ =~= urls@[0]@);
            } else {
                assert(text@ =~= before + seq![' '] + urls@[i as int]@);
            }
        }
        i += 1;
    }
    proof {
        assert(urls.deep_view().take(urls@.len() as int) =~= urls.deep_view());
    }
    string_of(&text)
}

fn text_field(name: &str, value: String) -> (field: Field)
    ensures
        field@ == (name@, PartView::Text(value@)),
{
    Field { name: name.to_owned(), part: Part::Text(value) }
}

/// The forms that the host takes, for the account of one user.
#[derive(Debug)]
pub struct CatboxUploader {
    userhash: String,
}

impl CatboxUploader {
    pub closed spec fn userhash(&self) -> Seq<char> {
        self.userhash@
    }

    pub fn new(userhash: &str) -> (uploader: Self)
        ensures
            uploader.userhash() == userhash@,
    {
        CatboxUploader { userhash: userhash.to_owned() }
    }

    pub fn duplicate(&self) -> (copy: Self)
        ensures
            copy.userhash() == self.userhash(),
    {
        CatboxUploader { userhash: self.userhash.clone() }
    }

    /// The form that uploads the file at `file_path`.
    pub fn upload_file(&self, file_path: &str) -> (form: Vec<Field>)
        ensures
            form_view(form@) == seq![
                ("reqtype"@, PartView::Text("fileupload"@)),
                ("userhash"@, PartView::Text(self.userhash())),
                ("fileToUpload"@, PartView::File(file_path@)),
            ],
    {
        let mut form: Vec<Field> = Vec::new();
        form.push(text_field("reqtype", "fileupload".to_owned()));
        form.push(text_field("userhash", self.userhash.clone()));
        form.push(Field { name: "fileToUpload".to_owned(), part: Part::File(file_path.to_owned()) });
        proof {
            assert(form_view(form@) =~= seq![
                ("reqtype"@, PartView::Text("fileupload"@)),
                ("userhash"@, PartView::Text(self.userhash())),
                ("fileToUpload"@, PartView::File(file_path@)),
            ]);
        }
        form
    }

    /// The form that has the host fetch the file at `image_url`.
    pub fn upload_url(&self, image_url: &str) -> (form: Vec<Field>)
        ensures
            form_view(form@) == seq![
                ("reqtype"@, PartView::Text("urlupload"@)),
                ("userhash"@, PartView::Text(self.userhash())),
                ("url"@, PartView::Text(image_url@)),
            ],
    {
        let mut form: Vec<Field> = Vec::new();
        form.push(text_field("reqtype", "urlupload".to_owned()));
        form.push(text_field("userhash", self.userhash.clone()));
        form.push(text_field("url", image_url.to_owned()));
        proof {
            assert(form_view(form@) =~= seq![
                ("reqtype"@, PartView::Text("urlupload"@)),
                ("userhash"@, PartView::Text(self.userhash())),
                ("url"@, PartView::Text(image_url@)),
            ]);
        }
        form
    }

    /// The form that creates an album of the given files.
    pub fn create_album(&self, gallery_name: &str, description: &str, file_urls: &Vec<String>) -> (form:
        Vec<Field>)
        ensures
            form_view(form@) == seq![
                ("reqtype"@, PartView::Text("createalbum"@)),
                ("userhash"@, PartView::Text(self.userhash())),
                ("title"@, PartView::Text(gallery_name@)),
                ("desc"@, PartView::Text(description@)),
                ("fileToUpload"@, PartView::Bytes(joined(file_urls.deep_view()))),
            ],
    {
        let mut form: Vec<Field> = Vec::new();
        form.push(text_field("reqtype", "createalbum".to_owned()));
        form.push(text_field("userhash", self.userhash.clone()));
        form.push(text_field("title", gallery_name.to_owned()));
        form.push(text_field("desc", description.to_owned()));
        form.push(Field { name: "fileToUpload".to_owned(), part: Part::Bytes(join(file_urls)) });
        proof {
            assert(form_view(form@) =~= seq![
                ("reqtype"@, PartView::Text("createalbum"@)),
                ("userhash"@, PartView::Text(self.userhash())),
                ("title"@, PartView::Text(gallery_name@)),
                ("desc"@, PartView::Text(description@)),
                ("fileToUpload"@, PartView::Bytes(joined(file_urls.deep_view()))),
            ]);
        }
        form
    }

    /// The form that gives the album `short` a title, a description and files.
    pub fn edit_album(
        &self,
        short: &str,
        gallery_name: &str,
        description: &str,
        file_urls: &Vec<String>,
    ) -> (form: Vec<Field>)
        ensures
            form_view(form@) == seq![
                ("reqtype"@, PartView::Text("editalbum"@)),
                ("userhash"@, PartView::Text(self.userhash())),
                ("short"@, PartView::Text(short@)),
                ("title"@, PartView::Text(gallery_name@)),
                ("desc"@, PartView::Text(description@)),
                ("files"@, PartView::Text(joined(file_urls.deep_view()))),
            ],
    {
        let mut form: Vec<Field> = Vec::new();
        form.push(text_field("reqtype", "editalbum".to_owned()));
        form.push(text_field("userhash", self.userhash.clone()));
        form.push(text_field("short", short.to_owned()));
        form.push(text_field("title", gallery_name.to_owned()));
        form.push(text_field("desc", description.to_owned()));
        form.push(text_field("files", join(file_urls)));
        proof {
            assert(form_view(form@) =~= seq![
                ("reqtype"@, PartView::Text("editalbum"@)),
                ("userhash"@, PartView::Text(self.userhash())),
                ("short"@, PartView::Text(short@)),
                ("title"@, PartView::Text(gallery_name@)),
                ("desc"@, PartView::Text(description@)),
                ("files"@, PartView::Text(joined(file_urls.deep_view()))),
            ]);
        }
        form
    }
}

pub open spec fn text_result(outcome: Result<String, CatboxError>) -> Result<Seq<char>, CatboxError> {
    match outcome {
        Ok(text) => Ok(text@),
        Err(e) => Err(e),
    }
}

/// What an answer of the host gives: the member of the answer where the
/// host took the call and the member is there.
pub open spec fn answer_of(
    accepted: bool,
    member: Option<Option<Seq<char>>>,
    refused: CatboxError,
    missing: CatboxError,
) -> Result<Seq<char>, CatboxError> {
    if !accepted {
        Err(refused)
    } else {
        match member {
            Some(Some(text)) => Ok(text),
            Some(None) => Err(missing),
            None => Err(CatboxError::Decode),
        }
    }
}

/// Reads an answer of the host, given the member that was found in it.
pub fn read_answer(
    accepted: bool,
    member: Result<Option<String>, serde_json::Error>,
    refused: CatboxError,
    missing: CatboxError,
) -> (outcome: Result<String, CatboxError>)
    ensures
        text_result(outcome) == answer_of(accepted, member_view(member), refused, missing),
{
    if !accepted {
        return Err(refused);
    }
    match member {
        Ok(Some(text)) => Ok(text),
        Ok(None) => Err(missing),
        Err(_) => Err(CatboxError::Decode),
    }
}

/// The address of the file that an upload of a file gave. `accepted` says
/// whether the host answered with a status of success.
pub fn uploaded_file(accepted: bool, body: &[u8]) -> (outcome: Result<String, CatboxError>)
    ensures
        text_result(outcome) == answer_of(
            accepted,
            json_text_member(body@, "fileURL"@),
            CatboxError::UploadFile,
            CatboxError::NoFileUrl,
        ),
{
    if !accepted {
        return Err(CatboxError::UploadFile);
    }
    read_answer(accepted, text_member(body, "fileURL"), CatboxError::UploadFile, CatboxError::NoFileUrl)
}

/// The address of the file that an upload by address gave.
pub fn uploaded_url(accepted: bool, body: &[u8]) -> (outcome: Result<String, CatboxError>)
    ensures
        text_result(outcome) == answer_of(
            accepted,
            json_text_member(body@, "fileURL"@),
            CatboxError::UploadUrl,
            CatboxError::NoFileUrl,
        ),
{
    if !accepted {
        return Err(CatboxError::UploadUrl);
    }
    read_answer(accepted, text_member(body, "fileURL"), CatboxError::UploadUrl, CatboxError::NoFileUrl)
}

/// The short name of the album that was created.
pub fn created_album(accepted: bool, body: &[u8]) -> (outcome: Result<String, CatboxError>)
    ensures
        text_result(outcome) == answer_of(
            accepted,
            json_text_member(body@, "short"@),
            CatboxError::CreateAlbum,
            CatboxError::CreateAlbum,
        ),
{
    if !accepted {
        return Err(CatboxError::CreateAlbum);
    }
    read_answer(accepted, text_member(body, "short"), CatboxError::CreateAlbum, CatboxError::CreateAlbum)
}

/// Whether the album was edited.
pub fn edited_album(accepted: bool) -> (outcome: Result<(), CatboxError>)
    ensures
        outcome == if accepted {
            Ok::<(), CatboxError>(())
        } else {
            Err::<(), CatboxError>(CatboxError::EditAlbum)
        },
{
    if accepted {
        Ok(())
    } else {
        Err(CatboxError::EditAlbum)
    }
}

} // verus!
