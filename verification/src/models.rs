//! Data models shared across the Tripo3D v3 API surface.
//!
//! JSON (de)serialisation of these types lives outside the verified library;
//! here they are plain data, plus the decisions the client takes on them.

use vstd::prelude::*;

use crate::constants::TaskStatus;
use crate::text::{starts_with, str_starts_with};

verus! {

/// The standard `{ code, data, message, suggestion }` response envelope, as
/// decoded from a response body.
#[derive(Debug, Clone)]
pub struct Envelope<T> {
    pub code: i64,
    pub data: Option<T>,
    pub message: Option<String>,
    pub suggestion: Option<String>,
}

/// A task snapshot as returned by `GET /v3/tasks/{task_id}` and
/// `POST /v3/tasks/list`: the fields that the client reads or reports.
#[derive(Debug, Clone)]
pub struct Task {
    pub task_id: String,
    /// The wire field `type`.
    pub task_type: String,
    pub status: TaskStatus,
    pub progress: Option<u32>,
    pub output: Option<TaskOutput>,
    /// ISO 8601 creation time.
    pub created_at: Option<String>,
    /// ISO 8601 completion time; absent until the task is terminal.
    pub completed_at: Option<String>,
    pub running_left_time: Option<i64>,
    pub queuing_num: Option<i64>,
    pub error_code: Option<i64>,
    pub error_message: Option<String>,
}

/// The `output` object of a completed task. Fields vary by task type, so
/// everything is optional.
#[derive(Debug, Clone)]
pub struct TaskOutput {
    pub model: Option<String>,
    pub model_url: Option<String>,
    pub model_urls: Option<Vec<String>>,
    pub base_model: Option<String>,
    pub pbr_model: Option<String>,
    pub rendered_image: Option<String>,
    pub rendered_image_url: Option<String>,
    /// Output of the text-to-image and image-to-image endpoints. The 3D
    /// generation endpoints also populate it with the reference image they
    /// synthesised internally.
    pub generated_image_url: Option<String>,
    pub riggable: Option<bool>,
    pub rig_type: Option<String>,
}

impl Default for TaskOutput {
    fn default() -> (o: Self)
        ensures
            o.model is None && o.model_url is None && o.model_urls is None && o.base_model is None
                && o.pbr_model is None && o.rendered_image is None && o.rendered_image_url is None
                && o.generated_image_url is None && o.riggable is None && o.rig_type is None,
    {
        TaskOutput {
            model: None,
            model_url: None,
            model_urls: None,
            base_model: None,
            pbr_model: None,
            rendered_image: None,
            rendered_image_url: None,
            generated_image_url: None,
            riggable: None,
            rig_type: None,
        }
    }
}

/// The first of the model fields of an output that is present, in priority
/// order: `model_url`, `model`, `pbr_model`, `base_model`, then the first entry
/// of `model_urls`.
pub open spec fn primary_model_url_of(o: TaskOutput) -> Option<String> {
    if o.model_url is Some {
        o.model_url
    } else if o.model is Some {
        o.model
    } else if o.pbr_model is Some {
        o.pbr_model
    } else if o.base_model is Some {
        o.base_model
    } else {
        match o.model_urls {
            Some(v) => if v@.len() > 0 { Some(v@[0]) } else { None },
            None => None,
        }
    }
}

/// The primary model URL is the first of `model_url`, `model`, `pbr_model`
/// and `base_model` that is present, else the first of `model_urls`; there
/// is none exactly when all of those are absent or empty.
pub proof fn primary_url_follows_priority(o: TaskOutput)
    ensures
        o.model_url is Some ==> primary_model_url_of(o) == o.model_url,
        o.model_url is None && o.model is Some ==> primary_model_url_of(o) == o.model,
        o.model_url is None && o.model is None && o.pbr_model is Some ==> primary_model_url_of(o)
            == o.pbr_model,
        o.model_url is None && o.model is None && o.pbr_model is None && o.base_model is Some
            ==> primary_model_url_of(o) == o.base_model,
        o.model_url is None && o.model is None && o.pbr_model is None && o.base_model is None && (
        o.model_urls matches Some(v) && v@.len() > 0) ==> primary_model_url_of(o) == Some(
            o.model_urls->0@[0],
        ),
        primary_model_url_of(o) is None <==> (o.model_url is None && o.model is None && o.pbr_model
            is None && o.base_model is None && (o.model_urls is None || o.model_urls->0@.len()
            == 0)),
{
}

impl TaskOutput {
    /// Best-effort extraction of "the" primary model URL, checking the
    /// common output fields in priority order.
    pub fn primary_model_url(&self) -> (r: Option<&String>)
        ensures
            r == match primary_model_url_of(*self) {
                Some(s) => Some(&s),
                None => None::<&String>,
            },
    {
        if let Some(u) = &self.model_url {
            Some(u)
        } else if let Some(u) = &self.model {
            Some(u)
        } else if let Some(u) = &self.pbr_model {
            Some(u)
        } else if let Some(u) = &self.base_model {
            Some(u)
        } else {
            match &self.model_urls {
                Some(v) => if v.len() > 0 { Some(&v[0]) } else { None },
                None => None,
            }
        }
    }
}

impl Task {
    /// Convenience accessor mirroring [`TaskOutput::primary_model_url`].
    pub fn primary_model_url(&self) -> (r: Option<&String>)
        ensures
            r == match self.output {
                Some(o) => match primary_model_url_of(o) {
                    Some(s) => Some(&s),
                    None => None::<&String>,
                },
                None => None::<&String>,
            },
    {
        match &self.output {
            Some(o) => o.primary_model_url(),
            None => None,
        }
    }
}


/// `POST /v3/tasks/list` response payload.
#[derive(Debug, Clone)]
pub struct TaskList {
    pub tasks: Vec<Task>,
}

/// `POST /v3/files` response payload.
#[derive(Debug, Clone)]
pub struct UploadedFile {
    pub file_token: String,
}

/// A generic `{ task_id }` response payload used by every task-creation
/// endpoint.
#[derive(Debug, Clone)]
pub struct TaskCreated {
    pub task_id: String,
}

/// Reuses the 4-view output of an earlier multiview task.
#[derive(Debug, Clone)]
pub struct MultiviewTaskRef {
    pub task_id: String,
}

/// Bucket/key pair for pre-uploaded assets (STS-style upload).
#[derive(Debug, Clone)]
pub struct ObjectRef {
    pub bucket: String,
    pub key: String,
}

/// The file descriptor shape accepted by every endpoint that takes an image
/// or model file as input.
#[derive(Debug, Clone)]
pub struct FileDescriptor {
    pub file_token: Option<String>,
    pub url: Option<String>,
    pub object: Option<ObjectRef>,
    /// The wire field `type`.
    pub file_type: Option<String>,
}

impl FileDescriptor {
    /// A descriptor with no field set.
    pub open spec fn is_blank(&self) -> bool {
        &&& self.file_token is None
        &&& self.url is None
        &&& self.object is None
        &&& self.file_type is None
    }
}

impl Default for FileDescriptor {
    fn default() -> (d: Self)
        ensures
            d.is_blank(),
    {
        FileDescriptor { file_token: None, url: None, object: None, file_type: None }
    }
}

/// An image or model reference, in any of the shapes the v3 API accepts.
///
/// A [`FileInput::Ref`] is sent as a bare JSON string and lets the server
/// infer what it is — a public URL, a `file_token`, or the `task_id` of an
/// earlier task whose output should be reused. That inference is what makes
/// chaining tasks possible. Use the other variants to be explicit.
#[derive(Debug, Clone)]
pub enum FileInput {
    /// A bare reference whose kind the server infers.
    Ref(String),
    Url(String),
    FileToken(String),
    Descriptor(FileDescriptor),
    /// An omitted view. Only meaningful in a multiview slot, where it is sent
    /// as the empty string the API uses to skip a view.
    Empty,
}

impl Default for FileInput {
    fn default() -> (f: Self)
        ensures
            f is Empty,
    {
        FileInput::Empty
    }
}

/// How a [`FileInput`] appears on the wire: a bare JSON string or a file
/// descriptor object.
#[derive(Debug, Clone)]
pub enum FileInputWire {
    Text(String),
    Object(FileDescriptor),
}

/// The descriptor that carries only `url`.
pub open spec fn url_descriptor(url: String) -> FileDescriptor {
    FileDescriptor { file_token: None, url: Some(url), object: None, file_type: None }
}

/// The descriptor that carries only `file_token`.
pub open spec fn token_descriptor(token: String) -> FileDescriptor {
    FileDescriptor { file_token: Some(token), url: None, object: None, file_type: None }
}

/// The explicit object form of an input.
pub open spec fn descriptor_of(f: FileInput) -> FileDescriptor {
    match f {
        FileInput::Url(u) => url_descriptor(u),
        FileInput::FileToken(t) => token_descriptor(t),
        FileInput::Ref(r) => if starts_with(r@, "http://"@) || starts_with(r@, "https://"@) {
            url_descriptor(r)
        } else {
            token_descriptor(r)
        },
        FileInput::Descriptor(d) => d,
        FileInput::Empty => FileDescriptor { file_token: None, url: None, object: None, file_type: None },
    }
}

/// Turning a descriptor into an input and collapsing it again gives the
/// descriptor back.
pub proof fn descriptor_round_trip(d: FileDescriptor)
    ensures
        descriptor_of(FileInput::Descriptor(d)) == d,
{
}

/// Collapsing an input that carries a reference never loses it: the
/// descriptor, taken as an input, is not empty either. (The converse fails:
/// `FileInput::Ref("")` is empty but collapses to a descriptor with an empty
/// `file_token`.)
pub proof fn collapsing_keeps_the_reference(f: FileInput)
    requires
        !f.spec_is_empty(),
    ensures
        !FileInput::Descriptor(descriptor_of(f)).spec_is_empty(),
{
}

/// An explicit URL collapses to the descriptor that carries that URL in its
/// `url` field and nothing else, and an explicit file token to the one that
/// carries it in its `file_token` field and nothing else.
pub proof fn explicit_inputs_keep_their_field(s: String)
    ensures
        descriptor_of(FileInput::Url(s)) == (FileDescriptor {
            file_token: None,
            url: Some(s),
            object: None,
            file_type: None,
        }),
        descriptor_of(FileInput::FileToken(s)) == (FileDescriptor {
            file_token: Some(s),
            url: None,
            object: None,
            file_type: None,
        }),
{
}

/// A descriptor input is empty exactly when it names no file at all: a
/// `file_token`, a `url` or an object reference each make it an input, and
/// its `type` plays no part.
pub proof fn descriptors_are_empty_only_without_a_reference(d: FileDescriptor)
    ensures
        d.object is Some ==> !FileInput::Descriptor(d).spec_is_empty(),
        d.url is Some ==> !FileInput::Descriptor(d).spec_is_empty(),
        d.file_token is Some ==> !FileInput::Descriptor(d).spec_is_empty(),
        d.file_token is None && d.url is None && d.object is None ==> FileInput::Descriptor(
            d,
        ).spec_is_empty(),
{
}

/// A reference given as a string (bare, a URL or a file token) is empty
/// exactly when the string is, and an omitted view is empty.
pub proof fn string_inputs_are_empty_only_when_blank(s: String)
    ensures
        FileInput::Ref(s).spec_is_empty() <==> s@.len() == 0,
        FileInput::Url(s).spec_is_empty() <==> s@.len() == 0,
        FileInput::FileToken(s).spec_is_empty() <==> s@.len() == 0,
        FileInput::Empty.spec_is_empty(),
{
}

impl FileInput {
    /// The input carries no reference at all.
    pub open spec fn spec_is_empty(&self) -> bool {
        match self {
            FileInput::Empty => true,
            FileInput::Ref(s) => s@.len() == 0,
            FileInput::Url(s) => s@.len() == 0,
            FileInput::FileToken(s) => s@.len() == 0,
            FileInput::Descriptor(d) => d.file_token is None && d.url is None && d.object is None,
        }
    }

    /// Reports whether this input carries no reference at all.
    #[verifier::when_used_as_spec(spec_is_empty)]
    pub fn is_empty(&self) -> (b: bool)
        ensures
            b == self.spec_is_empty(),
    {
        match self {
            FileInput::Empty => true,
            FileInput::Ref(s) => s.as_str().is_empty(),
            FileInput::Url(s) => s.as_str().is_empty(),
            FileInput::FileToken(s) => s.as_str().is_empty(),
            FileInput::Descriptor(d) => d.file_token.is_none() && d.url.is_none()
                && d.object.is_none(),
        }
    }

    /// Collapses this input into the explicit object form. A [`FileInput::Ref`]
    /// is classified by its prefix, which cannot distinguish a `file_token`
    /// from a `task_id`: one that starts with `http://` or `https://` becomes
    /// a `url`, any other a `file_token`.
    pub fn into_descriptor(self) -> (d: FileDescriptor)
        ensures
            d == descriptor_of(self),
    {
        match self {
            FileInput::Url(url) => FileDescriptor { url: Some(url), ..FileDescriptor::default() },
            FileInput::FileToken(token) => FileDescriptor {
                file_token: Some(token),
                ..FileDescriptor::default()
            },
            FileInput::Ref(r) => {
                if str_starts_with(r.as_str(), "http://") || str_starts_with(r.as_str(), "https://") {
                    FileDescriptor { url: Some(r), ..FileDescriptor::default() }
                } else {
                    FileDescriptor { file_token: Some(r), ..FileDescriptor::default() }
                }
            },
            FileInput::Descriptor(d) => d,
            FileInput::Empty => FileDescriptor::default(),
        }
    }

    /// The wire form of this input: a bare reference or an omitted view is
    /// sent as a string (the empty string for an omitted view), a URL or a
    /// file token as a descriptor with that one field, a descriptor as itself.
    pub fn into_wire(self) -> (w: FileInputWire)
        ensures
            match self {
                FileInput::Ref(s) => w == FileInputWire::Text(s),
                FileInput::Empty => w matches FileInputWire::Text(t) && t@.len() == 0,
                FileInput::Url(u) => w == FileInputWire::Object(url_descriptor(u)),
                FileInput::FileToken(t) => w == FileInputWire::Object(token_descriptor(t)),
                FileInput::Descriptor(orig) => w == FileInputWire::Object(orig),
            },
    {
        match self {
            FileInput::Ref(s) => FileInputWire::Text(s),
            FileInput::Empty => FileInputWire::Text(String::new()),
            FileInput::Url(url) => FileInputWire::Object(
                FileDescriptor { url: Some(url), ..FileDescriptor::default() },
            ),
            FileInput::FileToken(token) => FileInputWire::Object(
                FileDescriptor { file_token: Some(token), ..FileDescriptor::default() },
            ),
            FileInput::Descriptor(d) => FileInputWire::Object(d),
        }
    }
}

impl From<String> for FileInput {
    fn from(value: String) -> (f: Self) {
        FileInput::Ref(value)
    }
}

impl vstd::std_specs::convert::FromSpecImpl<String> for FileInput {
    open spec fn obeys_from_spec() -> bool {
        true
    }

    open spec fn from_spec(v: String) -> FileInput {
        FileInput::Ref(v)
    }
}

impl From<FileDescriptor> for FileInput {
    fn from(value: FileDescriptor) -> (f: Self) {
        FileInput::Descriptor(value)
    }
}

impl vstd::std_specs::convert::FromSpecImpl<FileDescriptor> for FileInput {
    open spec fn obeys_from_spec() -> bool {
        true
    }

    open spec fn from_spec(v: FileDescriptor) -> FileInput {
        FileInput::Descriptor(v)
    }
}

/// A single per-view edit instruction for `edit_multiview`.
#[derive(Debug, Clone)]
pub struct MultiviewPrompt {
    /// The edit instruction, e.g. "change the shirt color to red".
    pub prompt: String,
    /// The view to apply the edit to; see the [`view`](crate::constants::view)
    /// constants.
    pub view: String,
}

impl MultiviewPrompt {
    pub fn new(prompt: String, view: String) -> (m: Self)
        ensures
            m.prompt == prompt,
            m.view == view,
    {
        MultiviewPrompt { prompt, view }
    }
}

} // verus!
