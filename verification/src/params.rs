//! Request parameters of every task-creation endpoint.
//!
//! Every struct has a `Default` in which no optional field is set, so callers
//! can fill in a few fields with struct-update syntax on top of a constructor
//! or of `Default::default()`. Fields that the API accepts beyond these
//! (`extra`), and the fractional `flatten_bottom_threshold` of a conversion,
//! travel only in the JSON form of the parameters, which no check reads.

use vstd::prelude::*;

use crate::models::{FileDescriptor, FileInput, MultiviewPrompt, MultiviewTaskRef};

verus! {

/// The `inputs` payload of `POST /v3/generation/multiview-to-model`.
#[derive(Debug, Clone)]
pub enum MultiviewInputs {
    /// Exactly 4 views in `[front, left, back, right]` order. The front view
    /// is mandatory and at least 2 views must be supplied; use
    /// [`FileInput::Empty`] to skip the others.
    Views([FileInput; 4]),
    /// Reuses the 4-view output of a successful image-to-multiview or
    /// edit-multiview task.
    TaskId([MultiviewTaskRef; 1]),
}

/// `POST /v3/generation/text-to-model`
#[derive(Debug, Clone)]
pub struct TextToModelParams {
    pub prompt: String,
    pub model: Option<String>,
    pub negative_prompt: Option<String>,
    pub image_seed: Option<i64>,
    pub model_seed: Option<i64>,
    pub texture_seed: Option<i64>,
    pub texture: Option<bool>,
    pub pbr: Option<bool>,
    pub texture_quality: Option<String>,
    pub geometry_quality: Option<String>,
    pub face_limit: Option<i64>,
    pub auto_size: Option<bool>,
    /// Outputs a quad mesh instead of triangles, which forces the output
    /// format to FBX rather than GLB. Within the P series only
    /// [`model_version::P2`](crate::constants::model_version::P2) accepts it.
    pub quad: Option<bool>,
    pub smart_low_poly: Option<bool>,
    pub generate_parts: Option<bool>,
    pub compress: Option<String>,
    pub export_uv: Option<bool>,
    /// Forward axis of the exported model; see the
    /// [`export_orientation`](crate::constants::export_orientation) constants.
    pub export_orientation: Option<String>,
    pub style: Option<String>,
}

impl TextToModelParams {
    /// No optional field is set.
    pub open spec fn options_unset(&self) -> bool {
        &&& self.model is None
        &&& self.negative_prompt is None
        &&& self.image_seed is None
        &&& self.model_seed is None
        &&& self.texture_seed is None
        &&& self.texture is None
        &&& self.pbr is None
        &&& self.texture_quality is None
        &&& self.geometry_quality is None
        &&& self.face_limit is None
        &&& self.auto_size is None
        &&& self.quad is None
        &&& self.smart_low_poly is None
        &&& self.generate_parts is None
        &&& self.compress is None
        &&& self.export_uv is None
        &&& self.export_orientation is None
        &&& self.style is None
    }
}

impl TextToModelParams {
    pub fn new(prompt: String) -> (p: Self)
        ensures
            p.prompt == prompt,
            p.options_unset(),
    {
        TextToModelParams { prompt, ..Default::default() }
    }
}

impl Default for TextToModelParams {
    fn default() -> (p: Self)
        ensures
            p.prompt@.len() == 0,
            p.options_unset(),
    {
        TextToModelParams {
            prompt: String::new(),
            model: None,
            negative_prompt: None,
            image_seed: None,
            model_seed: None,
            texture_seed: None,
            texture: None,
            pbr: None,
            texture_quality: None,
            geometry_quality: None,
            face_limit: None,
            auto_size: None,
            quad: None,
            smart_low_poly: None,
            generate_parts: None,
            compress: None,
            export_uv: None,
            export_orientation: None,
            style: None,
        }
    }
}

/// `POST /v3/generation/image-to-model`
#[derive(Debug, Clone)]
pub struct ImageToModelParams {
    /// The source image: a public URL, a `file_token`, or the `task_id` of
    /// an earlier text-to-image or image-to-image task.
    pub input: FileInput,
    pub model: Option<String>,
    pub enable_image_autofix: Option<bool>,
    pub model_seed: Option<i64>,
    pub texture_seed: Option<i64>,
    pub texture: Option<bool>,
    pub pbr: Option<bool>,
    pub texture_quality: Option<String>,
    pub texture_alignment: Option<String>,
    pub geometry_quality: Option<String>,
    pub face_limit: Option<i64>,
    pub auto_size: Option<bool>,
    pub orientation: Option<String>,
    /// Outputs a quad mesh instead of triangles, which forces the output
    /// format to FBX rather than GLB. Within the P series only
    /// [`model_version::P2`](crate::constants::model_version::P2) accepts it.
    pub quad: Option<bool>,
    pub smart_low_poly: Option<bool>,
    pub generate_parts: Option<bool>,
    pub compress: Option<String>,
    pub export_uv: Option<bool>,
    /// Forward axis of the exported model; see the
    /// [`export_orientation`](crate::constants::export_orientation) constants.
    pub export_orientation: Option<String>,
    pub style: Option<String>,
}

impl ImageToModelParams {
    /// No optional field is set.
    pub open spec fn options_unset(&self) -> bool {
        &&& self.model is None
        &&& self.enable_image_autofix is None
        &&& self.model_seed is None
        &&& self.texture_seed is None
        &&& self.texture is None
        &&& self.pbr is None
        &&& self.texture_quality is None
        &&& self.texture_alignment is None
        &&& self.geometry_quality is None
        &&& self.face_limit is None
        &&& self.auto_size is None
        &&& self.orientation is None
        &&& self.quad is None
        &&& self.smart_low_poly is None
        &&& self.generate_parts is None
        &&& self.compress is None
        &&& self.export_uv is None
        &&& self.export_orientation is None
        &&& self.style is None
    }
}

impl ImageToModelParams {
    pub fn new(input: FileInput) -> (p: Self)
        ensures
            p.input == input,
            p.options_unset(),
    {
        ImageToModelParams { input, ..Default::default() }
    }
}

impl Default for ImageToModelParams {
    fn default() -> (p: Self)
        ensures
            p.input is Empty,
            p.options_unset(),
    {
        ImageToModelParams {
            input: FileInput::Empty,
            model: None,
            enable_image_autofix: None,
            model_seed: None,
            texture_seed: None,
            texture: None,
            pbr: None,
            texture_quality: None,
            texture_alignment: None,
            geometry_quality: None,
            face_limit: None,
            auto_size: None,
            orientation: None,
            quad: None,
            smart_low_poly: None,
            generate_parts: None,
            compress: None,
            export_uv: None,
            export_orientation: None,
            style: None,
        }
    }
}

/// `POST /v3/generation/multiview-to-model`
#[derive(Debug, Clone)]
pub struct MultiviewToModelParams {
    pub inputs: Option<MultiviewInputs>,
    pub model: Option<String>,
    pub model_seed: Option<i64>,
    pub texture_seed: Option<i64>,
    pub texture: Option<bool>,
    pub pbr: Option<bool>,
    pub texture_quality: Option<String>,
    pub geometry_quality: Option<String>,
    pub texture_alignment: Option<String>,
    pub face_limit: Option<i64>,
    pub auto_size: Option<bool>,
    pub orientation: Option<String>,
    /// Outputs a quad mesh instead of triangles, which forces the output
    /// format to FBX rather than GLB. Within the P series only
    /// [`model_version::P2`](crate::constants::model_version::P2) accepts it.
    pub quad: Option<bool>,
    pub smart_low_poly: Option<bool>,
    pub generate_parts: Option<bool>,
    pub compress: Option<String>,
    pub export_uv: Option<bool>,
    pub export_orientation: Option<String>,
}

impl MultiviewToModelParams {
    /// No optional field is set.
    pub open spec fn options_unset(&self) -> bool {
        self.inputs is None && self.settings_unset()
    }

    /// No optional field other than `inputs` is set.
    pub open spec fn settings_unset(&self) -> bool {
        &&& self.model is None
        &&& self.model_seed is None
        &&& self.texture_seed is None
        &&& self.texture is None
        &&& self.pbr is None
        &&& self.texture_quality is None
        &&& self.geometry_quality is None
        &&& self.texture_alignment is None
        &&& self.face_limit is None
        &&& self.auto_size is None
        &&& self.orientation is None
        &&& self.quad is None
        &&& self.smart_low_poly is None
        &&& self.generate_parts is None
        &&& self.compress is None
        &&& self.export_uv is None
        &&& self.export_orientation is None
    }
}

impl MultiviewToModelParams {
    /// Views in `[front, left, back, right]` order; `None` for the views to
    /// skip, which are sent as [`FileInput::Empty`].
    pub fn from_views(views: [Option<FileInput>; 4]) -> (p: Self)
        ensures
            p.inputs matches Some(MultiviewInputs::Views(v)) && forall|i: int| 0 <= i < 4 ==>
                match #[trigger] views@[i] {
                    Some(f) => v@[i] == f,
                    None => v@[i] is Empty,
                },
            p.settings_unset(),
    {
        let mut views = views;
        let ghost given = views;
        let front = unwrap_view(views[0].take());
        let left = unwrap_view(views[1].take());
        let back = unwrap_view(views[2].take());
        let right = unwrap_view(views[3].take());
        let v = [front, left, back, right];
        assert(forall|i: int| 0 <= i < 4 ==> match #[trigger] given@[i] {
            Some(f) => v@[i] == f,
            None => v@[i] is Empty,
        }) by {
            assert(v@[0] == front && v@[1] == left && v@[2] == back && v@[3] == right);
        }
        MultiviewToModelParams { inputs: Some(MultiviewInputs::Views(v)), ..Default::default() }
    }

    /// Reuses the 4-view output of an earlier image-to-multiview or
    /// edit-multiview task.
    pub fn from_task_id(task_id: String) -> (p: Self)
        ensures
            p.inputs matches Some(MultiviewInputs::TaskId(t)) && t@[0].task_id == task_id,
            p.settings_unset(),
    {
        MultiviewToModelParams {
            inputs: Some(MultiviewInputs::TaskId([MultiviewTaskRef { task_id }])),
            ..Default::default()
        }
    }
}

fn unwrap_view(view: Option<FileInput>) -> (f: FileInput)
    ensures
        match view {
            Some(v) => f == v,
            None => f is Empty,
        },
{
    match view {
        Some(v) => v,
        None => FileInput::Empty,
    }
}

impl Default for MultiviewToModelParams {
    fn default() -> (p: Self)
        ensures
            p.options_unset(),
    {
        MultiviewToModelParams {
            inputs: None,
            model: None,
            model_seed: None,
            texture_seed: None,
            texture: None,
            pbr: None,
            texture_quality: None,
            geometry_quality: None,
            texture_alignment: None,
            face_limit: None,
            auto_size: None,
            orientation: None,
            quad: None,
            smart_low_poly: None,
            generate_parts: None,
            compress: None,
            export_uv: None,
            export_orientation: None,
        }
    }
}

/// `POST /v3/generation/text-to-image`
///
/// Several fields are only honoured by a subset of the
/// [`image_model`](crate::constants::image_model) values; see the constant
/// documentation for `quality`, `background` and `aspect_ratio`.
#[derive(Debug, Clone)]
pub struct TextToImageParams {
    /// Required unless `template` is set. Chinese and English are both
    /// supported; put the most important elements first and append a
    /// negative prompt after `--no`.
    pub prompt: String,
    pub model: Option<String>,
    /// Either a resolution tier such as `"2K"` or exact pixels such as
    /// `"2048x2048"`. The accepted values differ per model.
    pub size: Option<String>,
    pub quality: Option<String>,
    pub background: Option<String>,
    pub aspect_ratio: Option<String>,
    pub output_format: Option<String>,
    /// Adds an AI-generated-content watermark. Only the seedream models
    /// honour it: the banana models always embed an invisible watermark
    /// that cannot be disabled, and chat_image has no watermark control.
    pub watermark: Option<bool>,
    /// Applies a generation preset and makes `prompt` optional; see the
    /// [`image_template`](crate::constants::image_template) constants.
    pub template: Option<String>,
}

impl TextToImageParams {
    /// No optional field is set.
    pub open spec fn options_unset(&self) -> bool {
        &&& self.model is None
        &&& self.size is None
        &&& self.quality is None
        &&& self.background is None
        &&& self.aspect_ratio is None
        &&& self.output_format is None
        &&& self.watermark is None
        &&& self.template is None
    }
}

impl TextToImageParams {
    pub fn new(prompt: String) -> (p: Self)
        ensures
            p.prompt == prompt,
            p.options_unset(),
    {
        TextToImageParams { prompt, ..Default::default() }
    }

    /// A prompt-less request driven entirely by a template.
    pub fn from_template(template: String) -> (p: Self)
        ensures
            p.prompt@.len() == 0,
            p.template == Some(template),
            p.model is None && p.size is None && p.quality is None && p.background is None
                && p.aspect_ratio is None && p.output_format is None && p.watermark is None,
    {
        TextToImageParams { template: Some(template), ..Default::default() }
    }
}

impl Default for TextToImageParams {
    fn default() -> (p: Self)
        ensures
            p.prompt@.len() == 0,
            p.options_unset(),
    {
        TextToImageParams {
            prompt: String::new(),
            model: None,
            size: None,
            quality: None,
            background: None,
            aspect_ratio: None,
            output_format: None,
            watermark: None,
            template: None,
        }
    }
}

/// `POST /v3/generation/image-to-image` — edit, style transfer, or
/// multi-image fusion.
///
/// Several fields are only honoured by a subset of the
/// [`image_model`](crate::constants::image_model) values; see the constant
/// documentation for `quality`, `background` and `aspect_ratio`. Note that
/// `seedream_v5` is the only seedream model this endpoint accepts —
/// `seedream_v4` is text-to-image only.
#[derive(Debug, Clone)]
pub struct ImageToImageParams {
    /// A single reference image. Mutually exclusive with `inputs`.
    pub input: Option<FileInput>,
    /// Multiple reference images, referenced from `prompt` as `image[1]`,
    /// `image[2]` and so on. The ceiling depends on the model: 4 for
    /// seedream, 10 for banana, 16 for chat_image. Mutually exclusive with
    /// `input`.
    pub inputs: Option<Vec<FileInput>>,
    /// The edit instruction. Required unless `template` is set.
    pub prompt: Option<String>,
    pub model: Option<String>,
    /// Either a resolution tier such as `"2K"` or exact pixels such as
    /// `"2048x2048"`. The accepted values differ per model.
    pub size: Option<String>,
    pub quality: Option<String>,
    pub background: Option<String>,
    pub aspect_ratio: Option<String>,
    pub output_format: Option<String>,
    /// Applies an edit preset and makes `prompt` optional; see the
    /// [`image_template`](crate::constants::image_template) constants.
    pub template: Option<String>,
}

impl ImageToImageParams {
    /// No optional field is set.
    pub open spec fn options_unset(&self) -> bool {
        &&& self.input is None
        &&& self.inputs is None
        &&& self.prompt is None
        &&& self.model is None
        &&& self.size is None
        &&& self.quality is None
        &&& self.background is None
        &&& self.aspect_ratio is None
        &&& self.output_format is None
        &&& self.template is None
    }
}

impl ImageToImageParams {
    /// A single reference image plus an edit instruction.
    pub fn new(input: FileInput, prompt: String) -> (p: Self)
        ensures
            p.input == Some(input),
            p.prompt == Some(prompt),
            p.inputs is None && p.model is None && p.size is None && p.quality is None
                && p.background is None && p.aspect_ratio is None && p.output_format is None
                && p.template is None,
    {
        ImageToImageParams { input: Some(input), prompt: Some(prompt), ..Default::default() }
    }

    /// Several reference images, addressed from the prompt as `image[1]`,
    /// `image[2]` and so on.
    pub fn from_inputs(inputs: Vec<FileInput>, prompt: String) -> (p: Self)
        ensures
            p.inputs == Some(inputs),
            p.prompt == Some(prompt),
            p.input is None && p.model is None && p.size is None && p.quality is None
                && p.background is None && p.aspect_ratio is None && p.output_format is None
                && p.template is None,
    {
        ImageToImageParams { inputs: Some(inputs), prompt: Some(prompt), ..Default::default() }
    }
}

impl Default for ImageToImageParams {
    fn default() -> (p: Self)
        ensures
            p.options_unset(),
    {
        ImageToImageParams {
            input: None,
            inputs: None,
            prompt: None,
            model: None,
            size: None,
            quality: None,
            background: None,
            aspect_ratio: None,
            output_format: None,
            template: None,
        }
    }
}

/// `POST /v3/generation/image-to-multiview`
#[derive(Debug, Clone)]
pub struct ImageToMultiviewParams {
    /// The source image: a public URL, a `file_token`, or the `task_id` of
    /// an earlier image generation task.
    pub input: FileInput,
}

impl ImageToMultiviewParams {
    pub fn new(input: FileInput) -> (p: Self)
        ensures
            p.input == input,
    {
        ImageToMultiviewParams { input, ..Default::default() }
    }
}

impl Default for ImageToMultiviewParams {
    fn default() -> (p: Self)
        ensures
            p.input is Empty,
    {
        ImageToMultiviewParams {
            input: FileInput::Empty,
        }
    }
}

/// `POST /v3/generation/edit-multiview` — apply per-view edits to a
/// previously generated multiview set.
#[derive(Debug, Clone)]
pub struct EditMultiviewParams {
    /// The `task_id` of an earlier successful image-to-multiview or
    /// edit-multiview task. The API documents `file_token` and URL inputs
    /// too, but the service currently rejects anything that is not a
    /// `task_id`.
    pub input: FileInput,
    /// 1 to 4 per-view edit instructions.
    pub prompts: Vec<MultiviewPrompt>,
}

impl EditMultiviewParams {
    /// Edits of the multiview output of task `task_id`, which is sent as a
    /// bare reference.
    pub fn new(task_id: String, prompts: Vec<MultiviewPrompt>) -> (p: Self)
        ensures
            p.input == FileInput::Ref(task_id),
            p.prompts == prompts,
    {
        EditMultiviewParams { input: FileInput::Ref(task_id), prompts }
    }
}

impl Default for EditMultiviewParams {
    fn default() -> (p: Self)
        ensures
            p.input is Empty,
            p.prompts@.len() == 0,
    {
        EditMultiviewParams {
            input: FileInput::Empty,
            prompts: Vec::new(),
        }
    }
}

/// `POST /v3/models/texture`
#[derive(Debug, Clone)]
pub struct TextureModelParams {
    pub input: String,
    pub texture: Option<bool>,
    pub pbr: Option<bool>,
    pub model_seed: Option<i64>,
    pub texture_seed: Option<i64>,
    pub texture_quality: Option<String>,
    pub texture_alignment: Option<String>,
    pub text_prompt: Option<String>,
    pub image_prompt: Option<FileDescriptor>,
    pub style_image: Option<FileDescriptor>,
    pub compress: Option<String>,
    pub bake: Option<bool>,
    pub part_names: Option<Vec<String>>,
}

impl TextureModelParams {
    /// No optional field is set.
    pub open spec fn options_unset(&self) -> bool {
        &&& self.texture is None
        &&& self.pbr is None
        &&& self.model_seed is None
        &&& self.texture_seed is None
        &&& self.texture_quality is None
        &&& self.texture_alignment is None
        &&& self.text_prompt is None
        &&& self.image_prompt is None
        &&& self.style_image is None
        &&& self.compress is None
        &&& self.bake is None
        &&& self.part_names is None
    }
}

impl TextureModelParams {
    pub fn new(input: String) -> (p: Self)
        ensures
            p.input == input,
            p.options_unset(),
    {
        TextureModelParams { input, ..Default::default() }
    }
}

impl Default for TextureModelParams {
    fn default() -> (p: Self)
        ensures
            p.input@.len() == 0,
            p.options_unset(),
    {
        TextureModelParams {
            input: String::new(),
            texture: None,
            pbr: None,
            model_seed: None,
            texture_seed: None,
            texture_quality: None,
            texture_alignment: None,
            text_prompt: None,
            image_prompt: None,
            style_image: None,
            compress: None,
            bake: None,
            part_names: None,
        }
    }
}

/// `POST /v3/models/convert`
#[derive(Debug, Clone)]
pub struct ConvertModelParams {
    pub input: String,
    pub format: String,
    pub quad: Option<bool>,
    pub face_limit: Option<i64>,
    pub texture_size: Option<i64>,
    pub texture_format: Option<String>,
    pub flatten_bottom: Option<bool>,
    pub pivot_to_center_bottom: Option<bool>,
    pub with_animation: Option<bool>,
    pub pack_uv: Option<bool>,
    pub force_symmetry: Option<bool>,
    pub bake: Option<bool>,
    pub part_names: Option<Vec<String>>,
}

impl ConvertModelParams {
    /// No optional field is set.
    pub open spec fn options_unset(&self) -> bool {
        &&& self.quad is None
        &&& self.face_limit is None
        &&& self.texture_size is None
        &&& self.texture_format is None
        &&& self.flatten_bottom is None
        &&& self.pivot_to_center_bottom is None
        &&& self.with_animation is None
        &&& self.pack_uv is None
        &&& self.force_symmetry is None
        &&& self.bake is None
        &&& self.part_names is None
    }
}

impl ConvertModelParams {
    pub fn new(input: String, format: String) -> (p: Self)
        ensures
            p.input == input,
            p.format == format,
            p.options_unset(),
    {
        ConvertModelParams { input, format, ..Default::default() }
    }
}

impl Default for ConvertModelParams {
    fn default() -> (p: Self)
        ensures
            p.input@.len() == 0,
            p.format@.len() == 0,
            p.options_unset(),
    {
        ConvertModelParams {
            input: String::new(),
            format: String::new(),
            quad: None,
            face_limit: None,
            texture_size: None,
            texture_format: None,
            flatten_bottom: None,
            pivot_to_center_bottom: None,
            with_animation: None,
            pack_uv: None,
            force_symmetry: None,
            bake: None,
            part_names: None,
        }
    }
}

/// `POST /v3/mesh/segment`
#[derive(Debug, Clone)]
pub struct SegmentMeshParams {
    pub input: String,
    pub model: Option<String>,
}

impl SegmentMeshParams {
    /// No optional field is set.
    pub open spec fn options_unset(&self) -> bool {
        &&& self.model is None
    }
}

impl SegmentMeshParams {
    pub fn new(input: String) -> (p: Self)
        ensures
            p.input == input,
            p.options_unset(),
    {
        SegmentMeshParams { input, ..Default::default() }
    }
}

impl Default for SegmentMeshParams {
    fn default() -> (p: Self)
        ensures
            p.input@.len() == 0,
            p.options_unset(),
    {
        SegmentMeshParams {
            input: String::new(),
            model: None,
        }
    }
}

/// `POST /v3/mesh/complete`
#[derive(Debug, Clone)]
pub struct CompleteMeshParams {
    pub input: String,
    pub model: Option<String>,
    pub part_names: Option<Vec<String>>,
}

impl CompleteMeshParams {
    /// No optional field is set.
    pub open spec fn options_unset(&self) -> bool {
        &&& self.model is None
        &&& self.part_names is None
    }
}

impl CompleteMeshParams {
    pub fn new(input: String) -> (p: Self)
        ensures
            p.input == input,
            p.options_unset(),
    {
        CompleteMeshParams { input, ..Default::default() }
    }
}

impl Default for CompleteMeshParams {
    fn default() -> (p: Self)
        ensures
            p.input@.len() == 0,
            p.options_unset(),
    {
        CompleteMeshParams {
            input: String::new(),
            model: None,
            part_names: None,
        }
    }
}

/// `POST /v3/mesh/decimate`
#[derive(Debug, Clone)]
pub struct DecimateMeshParams {
    pub input: String,
    pub model: Option<String>,
    pub face_limit: Option<i64>,
    pub quad: Option<bool>,
    pub bake: Option<bool>,
    pub part_names: Option<Vec<String>>,
}

impl DecimateMeshParams {
    /// No optional field is set.
    pub open spec fn options_unset(&self) -> bool {
        &&& self.model is None
        &&& self.face_limit is None
        &&& self.quad is None
        &&& self.bake is None
        &&& self.part_names is None
    }
}

impl DecimateMeshParams {
    pub fn new(input: String) -> (p: Self)
        ensures
            p.input == input,
            p.options_unset(),
    {
        DecimateMeshParams { input, ..Default::default() }
    }
}

impl Default for DecimateMeshParams {
    fn default() -> (p: Self)
        ensures
            p.input@.len() == 0,
            p.options_unset(),
    {
        DecimateMeshParams {
            input: String::new(),
            model: None,
            face_limit: None,
            quad: None,
            bake: None,
            part_names: None,
        }
    }
}

/// `POST /v3/animations/rig-check`
#[derive(Debug, Clone)]
pub struct RigCheckParams {
    pub input: String,
}

impl RigCheckParams {
    pub fn new(input: String) -> (p: Self)
        ensures
            p.input == input,
    {
        RigCheckParams { input, ..Default::default() }
    }
}

impl Default for RigCheckParams {
    fn default() -> (p: Self)
        ensures
            p.input@.len() == 0,
    {
        RigCheckParams {
            input: String::new(),
        }
    }
}

/// `POST /v3/animations/rig`
#[derive(Debug, Clone)]
pub struct RigModelParams {
    pub input: String,
    pub rig_type: Option<String>,
    pub spec: Option<String>,
    pub out_format: Option<String>,
}

impl RigModelParams {
    /// No optional field is set.
    pub open spec fn options_unset(&self) -> bool {
        &&& self.rig_type is None
        &&& self.spec is None
        &&& self.out_format is None
    }
}

impl RigModelParams {
    pub fn new(input: String) -> (p: Self)
        ensures
            p.input == input,
            p.options_unset(),
    {
        RigModelParams { input, ..Default::default() }
    }
}

impl Default for RigModelParams {
    fn default() -> (p: Self)
        ensures
            p.input@.len() == 0,
            p.options_unset(),
    {
        RigModelParams {
            input: String::new(),
            rig_type: None,
            spec: None,
            out_format: None,
        }
    }
}

/// `POST /v3/animations/retarget`
///
/// Provide either `animation` (single preset) or `animations` (up to 5).
#[derive(Debug, Clone)]
pub struct RetargetAnimationParams {
    pub input: String,
    pub animation: Option<String>,
    pub animations: Option<Vec<String>>,
    pub out_format: Option<String>,
    pub bake_animation: Option<bool>,
    pub export_with_geometry: Option<bool>,
    pub animate_in_place: Option<bool>,
}

impl RetargetAnimationParams {
    /// No optional field is set.
    pub open spec fn options_unset(&self) -> bool {
        &&& self.animation is None
        &&& self.animations is None
        &&& self.out_format is None
        &&& self.bake_animation is None
        &&& self.export_with_geometry is None
        &&& self.animate_in_place is None
    }
}

impl RetargetAnimationParams {
    pub fn new(input: String) -> (p: Self)
        ensures
            p.input == input,
            p.options_unset(),
    {
        RetargetAnimationParams { input, ..Default::default() }
    }
}

impl Default for RetargetAnimationParams {
    fn default() -> (p: Self)
        ensures
            p.input@.len() == 0,
            p.options_unset(),
    {
        RetargetAnimationParams {
            input: String::new(),
            animation: None,
            animations: None,
            out_format: None,
            bake_animation: None,
            export_with_geometry: None,
            animate_in_place: None,
        }
    }
}

} // verus!
