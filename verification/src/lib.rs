//! A verified core for a client of the Tripo3D v3 REST API: the endpoints'
//! argument checks and paths, the retry policy that keeps billed requests
//! from being submitted twice, the envelope every response comes in, task
//! polling, and the data models and request parameters of the API.

pub mod client;
pub mod constants;
pub mod error;
pub mod http;
pub mod models;
pub mod params;
pub mod requests;
pub mod text;

pub use client::{ClientOptions, DownloadedModel, WaitOptions};
pub use constants::{
    model_version, AnimOutFormat, Animation, OutputFormat, RigSpec, RigType, TaskStatus,
    TextureFormat, DEFAULT_BASE_URL,
};
pub use error::{Error, Result};
pub use models::{FileDescriptor, FileInput, ObjectRef, Task, TaskOutput, UploadedFile};
