//! What each endpoint accepts, and where its request goes.
//!
//! Every check runs before any request is made: an argument that the
//! service would reject is an [`Error::InvalidArgument`], and an accepted
//! one yields the path that the request is posted to.

use vstd::prelude::*;

use crate::error::Error;
use crate::models::FileInput;
use crate::params::{
    CompleteMeshParams, ConvertModelParams, DecimateMeshParams, EditMultiviewParams,
    ImageToImageParams, ImageToModelParams, ImageToMultiviewParams, MultiviewInputs,
    MultiviewToModelParams, RetargetAnimationParams, RigCheckParams, RigModelParams,
    SegmentMeshParams, TextToImageParams, TextToModelParams, TextureModelParams,
};
use crate::text::{is_blank, is_blank_chars};

verus! {

/// `GET` path of the account balance.
pub const BALANCE_PATH: &'static str = "/account/balance";

/// `POST` path of a file upload.
pub const FILES_PATH: &'static str = "/files";

/// `POST` path of a batch task query.
pub const TASK_LIST_PATH: &'static str = "/tasks/list";

/// `r` rejects the argument with an [`Error::InvalidArgument`] carrying `msg`.
pub open spec fn rejected<T>(r: Result<T, Error>, msg: Seq<char>) -> bool {
    r matches Err(Error::InvalidArgument(m)) && m@ == msg
}

/// `r` accepts the argument, for a request to `path`.
pub open spec fn routed(r: Result<&'static str, Error>, path: Seq<char>) -> bool {
    r matches Ok(p) && p@ == path
}

fn reject<T>(msg: &str) -> (r: Result<T, Error>)
    ensures
        rejected(r, msg@),
{
    Err(Error::invalid_argument(msg))
}

/// A batch query needs at least one task id.
pub fn list_tasks_route(task_ids: &[String]) -> (r: Result<&'static str, Error>)
    ensures
        if task_ids@.len() == 0 {
            rejected(r, "list_tasks: `task_ids` must be non-empty"@)
        } else {
            routed(r, "/tasks/list"@)
        },
{
    if task_ids.len() == 0 {
        return reject("list_tasks: `task_ids` must be non-empty");
    }
    Ok(TASK_LIST_PATH)
}

/// Text-to-model needs a prompt that is not blank.
pub fn text_to_model_route(params: &TextToModelParams) -> (r: Result<&'static str, Error>)
    ensures
        if is_blank_chars(params.prompt@) {
            rejected(r, "text_to_model: `prompt` is required"@)
        } else {
            routed(r, "/generation/text-to-model"@)
        },
{
    if is_blank(params.prompt.as_str()) {
        return reject("text_to_model: `prompt` is required");
    }
    Ok("/generation/text-to-model")
}

/// Image-to-model needs an input image.
pub fn image_to_model_route(params: &ImageToModelParams) -> (r: Result<&'static str, Error>)
    ensures
        if params.input.spec_is_empty() {
            rejected(r, "image_to_model: `input` is required (url, file_token, or task_id)"@)
        } else {
            routed(r, "/generation/image-to-model"@)
        },
{
    if params.input.is_empty() {
        return reject("image_to_model: `input` is required (url, file_token, or task_id)");
    }
    Ok("/generation/image-to-model")
}

/// The number of views of a positional multiview input that are supplied.
pub open spec fn supplied_views(views: [FileInput; 4]) -> int {
    (if views@[0].spec_is_empty() { 0int } else { 1int })
        + (if views@[1].spec_is_empty() { 0int } else { 1int })
        + (if views@[2].spec_is_empty() { 0int } else { 1int })
        + (if views@[3].spec_is_empty() { 0int } else { 1int })
}

/// Every one of the four positions counts: with the front view supplied,
/// positional inputs have enough views exactly when some other position
/// (left, back or right) is supplied too, and a front view with all the
/// others supplied counts four.
pub proof fn every_view_position_counts(views: [FileInput; 4])
    requires
        !views@[0].spec_is_empty(),
    ensures
        supplied_views(views) >= 2 <==> (exists|k: int| 1 <= k < 4 && !(#[trigger] views@[k]).spec_is_empty()),
        !views@[1].spec_is_empty() && !views@[2].spec_is_empty() && !views@[3].spec_is_empty()
            ==> supplied_views(views) == 4,
{
    if !views@[1].spec_is_empty() {
        assert(1 <= 1int < 4 && !views@[1].spec_is_empty());
    }
    if !views@[2].spec_is_empty() {
        assert(1 <= 2int < 4 && !views@[2].spec_is_empty());
    }
    if !views@[3].spec_is_empty() {
        assert(1 <= 3int < 4 && !views@[3].spec_is_empty());
    }
}

/// Multiview-to-model needs inputs: either the task id of an earlier
/// multiview task, or positional views of which the front one and at least
/// one other are supplied.
pub fn multiview_to_model_route(params: &MultiviewToModelParams) -> (r: Result<&'static str, Error>)
    ensures
        match params.inputs {
            None => rejected(r, "multiview_to_model: provide `inputs` ([front, left, back, right]) or a source task_id"@),
            Some(MultiviewInputs::Views(views)) => if views@[0].spec_is_empty() {
                rejected(r, "multiview_to_model: the front view (`inputs[0]`) is required"@)
            } else if supplied_views(views) < 2 {
                rejected(r, "multiview_to_model: at least 2 views are required"@)
            } else {
                routed(r, "/generation/multiview-to-model"@)
            },
            Some(MultiviewInputs::TaskId(_)) => routed(r, "/generation/multiview-to-model"@),
        },
{
    match &params.inputs {
        None => {
            return reject(
                "multiview_to_model: provide `inputs` ([front, left, back, right]) or a source task_id",
            );
        },
        Some(MultiviewInputs::Views(views)) => {
            if views[0].is_empty() {
                return reject("multiview_to_model: the front view (`inputs[0]`) is required");
            }
            let mut supplied: usize = 0;
            let mut i: usize = 0;
            while i < 4
                invariant
                    i <= 4,
                    supplied <= i,
                    supplied == (if i > 0 && !views@[0].spec_is_empty() { 1int } else { 0int })
                        + (if i > 1 && !views@[1].spec_is_empty() { 1int } else { 0int })
                        + (if i > 2 && !views@[2].spec_is_empty() { 1int } else { 0int })
                        + (if i > 3 && !views@[3].spec_is_empty() { 1int } else { 0int }),
                decreases 4 - i,
            {
                if !views[i].is_empty() {
                    supplied = supplied + 1;
                }
                i = i + 1;
            }
            if supplied < 2 {
                return reject("multiview_to_model: at least 2 views are required");
            }
        },
        Some(MultiviewInputs::TaskId(_)) => {},
    }
    Ok("/generation/multiview-to-model")
}

/// Text-to-image needs a prompt that is not blank, unless a template is set.
pub fn text_to_image_route(params: &TextToImageParams) -> (r: Result<&'static str, Error>)
    ensures
        if is_blank_chars(params.prompt@) && params.template is None {
            rejected(r, "text_to_image: `prompt` is required unless `template` is set"@)
        } else {
            routed(r, "/generation/text-to-image"@)
        },
{
    if is_blank(params.prompt.as_str()) && params.template.is_none() {
        return reject("text_to_image: `prompt` is required unless `template` is set");
    }
    Ok("/generation/text-to-image")
}

/// `inputs` is set and holds at least one image.
pub open spec fn has_multiple_inputs(params: ImageToImageParams) -> bool {
    params.inputs matches Some(v) && v@.len() > 0
}

/// Several inputs are given exactly when `inputs` is present and holds at
/// least one entry; an empty list counts as no inputs.
pub proof fn multiple_inputs_need_an_entry(params: ImageToImageParams)
    ensures
        has_multiple_inputs(params) <==> (params.inputs is Some && params.inputs->0@.len() > 0),
{
}

/// Image-to-image needs exactly one of `input` and a non-empty `inputs`,
/// and a prompt unless a template is set.
pub fn image_to_image_route(params: &ImageToImageParams) -> (r: Result<&'static str, Error>)
    ensures
        if params.input is None && !has_multiple_inputs(*params) {
            rejected(r, "image_to_image: `input` or `inputs` is required"@)
        } else if params.input is Some && has_multiple_inputs(*params) {
            rejected(r, "image_to_image: `input` and `inputs` are mutually exclusive"@)
        } else if params.prompt is None && params.template is None {
            rejected(r, "image_to_image: `prompt` is required unless `template` is set"@)
        } else {
            routed(r, "/generation/image-to-image"@)
        },
{
    let has_inputs = match &params.inputs {
        Some(v) => v.len() > 0,
        None => false,
    };
    if params.input.is_none() && !has_inputs {
        return reject("image_to_image: `input` or `inputs` is required");
    }
    if params.input.is_some() && has_inputs {
        return reject("image_to_image: `input` and `inputs` are mutually exclusive");
    }
    if params.prompt.is_none() && params.template.is_none() {
        return reject("image_to_image: `prompt` is required unless `template` is set");
    }
    Ok("/generation/image-to-image")
}

/// Image-to-multiview needs an input image.
pub fn image_to_multiview_route(params: &ImageToMultiviewParams) -> (r: Result<&'static str, Error>)
    ensures
        if params.input.spec_is_empty() {
            rejected(r, "image_to_multiview: `input` is required (url, file_token, or task_id)"@)
        } else {
            routed(r, "/generation/image-to-multiview"@)
        },
{
    if params.input.is_empty() {
        return reject("image_to_multiview: `input` is required (url, file_token, or task_id)");
    }
    Ok("/generation/image-to-multiview")
}

/// Edit-multiview needs the multiview task to edit, and one to four prompts.
pub fn edit_multiview_route(params: &EditMultiviewParams) -> (r: Result<&'static str, Error>)
    ensures
        if params.input.spec_is_empty() {
            rejected(r, "edit_multiview: `input` is required (the task_id of a multiview task)"@)
        } else if params.prompts@.len() == 0 || params.prompts@.len() > 4 {
            rejected(r, "edit_multiview: `prompts` must contain 1 to 4 items"@)
        } else {
            routed(r, "/generation/edit-multiview"@)
        },
{
    if params.input.is_empty() {
        return reject("edit_multiview: `input` is required (the task_id of a multiview task)");
    }
    if params.prompts.len() == 0 || params.prompts.len() > 4 {
        return reject("edit_multiview: `prompts` must contain 1 to 4 items");
    }
    Ok("/generation/edit-multiview")
}

/// Texturing needs the source task.
pub fn texture_model_route(params: &TextureModelParams) -> (r: Result<&'static str, Error>)
    ensures
        if is_blank_chars(params.input@) {
            rejected(r, "texture_model: `input` (source task_id) is required"@)
        } else {
            routed(r, "/models/texture"@)
        },
{
    if is_blank(params.input.as_str()) {
        return reject("texture_model: `input` (source task_id) is required");
    }
    Ok("/models/texture")
}

/// Conversion needs the source task and the target format.
pub fn convert_model_route(params: &ConvertModelParams) -> (r: Result<&'static str, Error>)
    ensures
        if is_blank_chars(params.input@) {
            rejected(r, "convert_model: `input` is required"@)
        } else if is_blank_chars(params.format@) {
            rejected(r, "convert_model: `format` is required"@)
        } else {
            routed(r, "/models/convert"@)
        },
{
    if is_blank(params.input.as_str()) {
        return reject("convert_model: `input` is required");
    }
    if is_blank(params.format.as_str()) {
        return reject("convert_model: `format` is required");
    }
    Ok("/models/convert")
}

/// Segmentation needs the source task.
pub fn segment_mesh_route(params: &SegmentMeshParams) -> (r: Result<&'static str, Error>)
    ensures
        if is_blank_chars(params.input@) {
            rejected(r, "segment_mesh: `input` is required"@)
        } else {
            routed(r, "/mesh/segment"@)
        },
{
    if is_blank(params.input.as_str()) {
        return reject("segment_mesh: `input` is required");
    }
    Ok("/mesh/segment")
}

/// Mesh completion needs the source task.
pub fn complete_mesh_route(params: &CompleteMeshParams) -> (r: Result<&'static str, Error>)
    ensures
        if is_blank_chars(params.input@) {
            rejected(r, "complete_mesh: `input` is required"@)
        } else {
            routed(r, "/mesh/complete"@)
        },
{
    if is_blank(params.input.as_str()) {
        return reject("complete_mesh: `input` is required");
    }
    Ok("/mesh/complete")
}

/// Decimation needs the source task.
pub fn decimate_mesh_route(params: &DecimateMeshParams) -> (r: Result<&'static str, Error>)
    ensures
        if is_blank_chars(params.input@) {
            rejected(r, "decimate_mesh: `input` is required"@)
        } else {
            routed(r, "/mesh/decimate"@)
        },
{
    if is_blank(params.input.as_str()) {
        return reject("decimate_mesh: `input` is required");
    }
    Ok("/mesh/decimate")
}

/// A rig check needs the source task.
pub fn rig_check_route(params: &RigCheckParams) -> (r: Result<&'static str, Error>)
    ensures
        if is_blank_chars(params.input@) {
            rejected(r, "rig_check: `input` (source task_id) is required"@)
        } else {
            routed(r, "/animations/rig-check"@)
        },
{
    if is_blank(params.input.as_str()) {
        return reject("rig_check: `input` (source task_id) is required");
    }
    Ok("/animations/rig-check")
}

/// Rigging needs the source task.
pub fn rig_model_route(params: &RigModelParams) -> (r: Result<&'static str, Error>)
    ensures
        if is_blank_chars(params.input@) {
            rejected(r, "rig_model: `input` (source task_id) is required"@)
        } else {
            routed(r, "/animations/rig"@)
        },
{
    if is_blank(params.input.as_str()) {
        return reject("rig_model: `input` (source task_id) is required");
    }
    Ok("/animations/rig")
}

/// The number of animations in the `animations` list, zero when it is unset.
pub open spec fn animation_count(params: RetargetAnimationParams) -> int {
    match params.animations {
        Some(v) => v@.len() as int,
        None => 0,
    }
}

/// The animations counted against the limit of five are exactly the entries
/// of the `animations` list; the single `animation` field is not one of them.
pub proof fn animation_count_is_the_list_length(params: RetargetAnimationParams)
    ensures
        params.animations matches Some(v) ==> animation_count(params) == v@.len(),
        params.animations is None ==> animation_count(params) == 0,
        animation_count(params) >= 0,
{
}

/// Retargeting needs the rigged task, and a single `animation` or a
/// non-empty `animations` list of at most five.
pub fn retarget_animation_route(params: &RetargetAnimationParams) -> (r: Result<&'static str, Error>)
    ensures
        if is_blank_chars(params.input@) {
            rejected(r, "retarget_animation: `input` (rigged task_id) is required"@)
        } else if params.animation is None && animation_count(*params) == 0 {
            rejected(r, "retarget_animation: provide `animation` or a non-empty `animations` list"@)
        } else if animation_count(*params) > 5 {
            rejected(r, "retarget_animation: at most 5 animations per call"@)
        } else {
            routed(r, "/animations/retarget"@)
        },
{
    if is_blank(params.input.as_str()) {
        return reject("retarget_animation: `input` (rigged task_id) is required");
    }
    let has_single = params.animation.is_some();
    let animations_len: usize = match &params.animations {
        Some(v) => v.len(),
        None => 0,
    };
    if !has_single && animations_len == 0 {
        return reject("retarget_animation: provide `animation` or a non-empty `animations` list");
    }
    if animations_len > 5 {
        return reject("retarget_animation: at most 5 animations per call");
    }
    Ok("/animations/retarget")
}

} // verus!
