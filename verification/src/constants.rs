//! Enumerations and public constants of the Tripo3D v3 API.

use vstd::prelude::*;

use crate::text::{starts_with, str_eq};

pub mod model_version;
pub mod image_model;
pub mod image_quality;
pub mod image_background;
pub mod image_format;
pub mod aspect_ratio;
pub mod image_template;
pub mod export_orientation;
pub mod texture_quality;
pub mod geometry_quality;
pub mod texture_alignment;
pub mod orientation;
pub mod view;

verus! {

/// Default REST endpoint (China mainland). Overseas / global:
/// `https://openapi.tripo3d.ai/v3`.
pub const DEFAULT_BASE_URL: &'static str = "https://openapi.tripo3d.com/v3";

/// Task lifecycle statuses returned by `GET /v3/tasks/{task_id}`.
#[derive(Debug, Clone, Copy, PartialEq, Eq, Hash, Structural)]
pub enum TaskStatus {
    Queued,
    Running,
    Success,
    Failed,
    Cancelled,
    Unknown,
    Banned,
    Expired,
}

/// The name of a [`TaskStatus`] on the wire.
pub open spec fn task_status_name(s: TaskStatus) -> Seq<char> {
    match s {
        TaskStatus::Queued => "queued"@,
        TaskStatus::Running => "running"@,
        TaskStatus::Success => "success"@,
        TaskStatus::Failed => "failed"@,
        TaskStatus::Cancelled => "cancelled"@,
        TaskStatus::Unknown => "unknown"@,
        TaskStatus::Banned => "banned"@,
        TaskStatus::Expired => "expired"@,
    }
}

impl TaskStatus {
    /// The statuses a task never leaves once it has entered them.
    pub open spec fn spec_is_terminal(&self) -> bool {
        match self {
            TaskStatus::Success | TaskStatus::Failed | TaskStatus::Cancelled
            | TaskStatus::Banned | TaskStatus::Expired => true,
            _ => false,
        }
    }

    /// A task will not change once it enters one of these states.
    #[verifier::when_used_as_spec(spec_is_terminal)]
    pub fn is_terminal(&self) -> (b: bool)
        ensures
            b == self.spec_is_terminal(),
    {
        match self {
            TaskStatus::Success | TaskStatus::Failed | TaskStatus::Cancelled
            | TaskStatus::Banned | TaskStatus::Expired => true,
            _ => false,
        }
    }

    /// The status's name on the wire.
    pub fn as_str(&self) -> (s: &'static str)
        ensures
            s@ == task_status_name(*self),
    {
        match self {
            TaskStatus::Queued => "queued",
            TaskStatus::Running => "running",
            TaskStatus::Success => "success",
            TaskStatus::Failed => "failed",
            TaskStatus::Cancelled => "cancelled",
            TaskStatus::Unknown => "unknown",
            TaskStatus::Banned => "banned",
            TaskStatus::Expired => "expired",
        }
    }

    /// The status whose wire name is `name`, if any.
    pub fn from_name(name: &str) -> (r: Option<TaskStatus>)
        ensures
            r matches Some(s) ==> task_status_name(s) == name@,
            r is None ==> forall|s: TaskStatus| task_status_name(s) != name@,
    {
        if str_eq(name, "queued") {
            return Some(TaskStatus::Queued);
        }
        if str_eq(name, "running") {
            return Some(TaskStatus::Running);
        }
        if str_eq(name, "success") {
            return Some(TaskStatus::Success);
        }
        if str_eq(name, "failed") {
            return Some(TaskStatus::Failed);
        }
        if str_eq(name, "cancelled") {
            return Some(TaskStatus::Cancelled);
        }
        if str_eq(name, "unknown") {
            return Some(TaskStatus::Unknown);
        }
        if str_eq(name, "banned") {
            return Some(TaskStatus::Banned);
        }
        if str_eq(name, "expired") {
            return Some(TaskStatus::Expired);
        }
        None
    }

    pub fn is_success(&self) -> (b: bool)
        ensures
            b == (*self == TaskStatus::Success),
    {
        match self {
            TaskStatus::Success => true,
            _ => false,
        }
    }
}

/// The first letter of a status's wire name, which no other status shares.
spec fn name_initial(s: TaskStatus) -> char {
    match s {
        TaskStatus::Queued => 'q',
        TaskStatus::Running => 'r',
        TaskStatus::Success => 's',
        TaskStatus::Failed => 'f',
        TaskStatus::Cancelled => 'c',
        TaskStatus::Unknown => 'u',
        TaskStatus::Banned => 'b',
        TaskStatus::Expired => 'e',
    }
}

/// Wire names tell statuses apart: reading back the name of a status gives
/// that status.
pub proof fn status_names_are_distinct(s: TaskStatus, t: TaskStatus)
    requires
        task_status_name(s) == task_status_name(t),
    ensures
        s == t,
{
    reveal_strlit("queued");
    reveal_strlit("running");
    reveal_strlit("success");
    reveal_strlit("failed");
    reveal_strlit("cancelled");
    reveal_strlit("unknown");
    reveal_strlit("banned");
    reveal_strlit("expired");
    assert(task_status_name(s).len() > 0 && task_status_name(t).len() > 0);
    assert(task_status_name(s)[0] == name_initial(s));
    assert(task_status_name(t)[0] == name_initial(t));
}

/// The settled statuses are exactly success, failure, cancellation, a ban
/// and expiry; a queued, running or unknown task may still change.
pub proof fn settled_statuses(s: TaskStatus)
    ensures
        s.spec_is_terminal() <==> (s == TaskStatus::Success || s == TaskStatus::Failed || s
            == TaskStatus::Cancelled || s == TaskStatus::Banned || s == TaskStatus::Expired),
        s == TaskStatus::Queued || s == TaskStatus::Running || s == TaskStatus::Unknown
            ==> !s.spec_is_terminal(),
{
}

/// A successful task is settled.
pub proof fn success_is_terminal(s: TaskStatus)
    requires
        s == TaskStatus::Success,
    ensures
        s.spec_is_terminal(),
{
}

/// Preset animation identifiers accepted by `POST /v3/animations/retarget`.
/// Combine at most 5 in a single retarget call.
#[derive(Debug, Clone, Copy, PartialEq, Eq, Hash, Structural)]
pub enum Animation {
    Idle,
    Walk,
    Run,
    Dive,
    Climb,
    Jump,
    Slash,
    Shoot,
    Hurt,
    Fall,
    Turn,
    QuadrupedWalk,
    HexapodWalk,
    OctopodWalk,
    SerpentineMarch,
    AquaticMarch,
}

/// The name of a [`Animation`] on the wire.
pub open spec fn animation_name(v: Animation) -> Seq<char> {
    match v {
        Animation::Idle => "preset:idle"@,
        Animation::Walk => "preset:walk"@,
        Animation::Run => "preset:run"@,
        Animation::Dive => "preset:dive"@,
        Animation::Climb => "preset:climb"@,
        Animation::Jump => "preset:jump"@,
        Animation::Slash => "preset:slash"@,
        Animation::Shoot => "preset:shoot"@,
        Animation::Hurt => "preset:hurt"@,
        Animation::Fall => "preset:fall"@,
        Animation::Turn => "preset:turn"@,
        Animation::QuadrupedWalk => "preset:quadruped:walk"@,
        Animation::HexapodWalk => "preset:hexapod:walk"@,
        Animation::OctopodWalk => "preset:octopod:walk"@,
        Animation::SerpentineMarch => "preset:serpentine:march"@,
        Animation::AquaticMarch => "preset:aquatic:march"@,
    }
}

/// The two characters after `preset:` in an animation's wire name, which no
/// other animation shares.
spec fn animation_key(a: Animation) -> (char, char) {
    match a {
        Animation::Idle => ('i', 'd'),
        Animation::Walk => ('w', 'a'),
        Animation::Run => ('r', 'u'),
        Animation::Dive => ('d', 'i'),
        Animation::Climb => ('c', 'l'),
        Animation::Jump => ('j', 'u'),
        Animation::Slash => ('s', 'l'),
        Animation::Shoot => ('s', 'h'),
        Animation::Hurt => ('h', 'u'),
        Animation::Fall => ('f', 'a'),
        Animation::Turn => ('t', 'u'),
        Animation::QuadrupedWalk => ('q', 'u'),
        Animation::HexapodWalk => ('h', 'e'),
        Animation::OctopodWalk => ('o', 'c'),
        Animation::SerpentineMarch => ('s', 'e'),
        Animation::AquaticMarch => ('a', 'q'),
    }
}

/// Every animation goes on the wire as a `preset:` name, and the names tell
/// the animations apart.
pub proof fn animation_names_are_distinct_presets(a: Animation, b: Animation)
    ensures
        starts_with(animation_name(a), "preset:"@),
        animation_name(a) == animation_name(b) <==> a == b,
{
    reveal_strlit("preset:");
    reveal_strlit("preset:idle");
    reveal_strlit("preset:walk");
    reveal_strlit("preset:run");
    reveal_strlit("preset:dive");
    reveal_strlit("preset:climb");
    reveal_strlit("preset:jump");
    reveal_strlit("preset:slash");
    reveal_strlit("preset:shoot");
    reveal_strlit("preset:hurt");
    reveal_strlit("preset:fall");
    reveal_strlit("preset:turn");
    reveal_strlit("preset:quadruped:walk");
    reveal_strlit("preset:hexapod:walk");
    reveal_strlit("preset:octopod:walk");
    reveal_strlit("preset:serpentine:march");
    reveal_strlit("preset:aquatic:march");
    assert(animation_name(a).take(7) =~= "preset:"@);
    assert(animation_name(a).len() > 8 && animation_name(b).len() > 8);
    assert(animation_name(a)[7] == animation_key(a).0 && animation_name(a)[8] == animation_key(a).1);
    assert(animation_name(b)[7] == animation_key(b).0 && animation_name(b)[8] == animation_key(b).1);
}

impl Animation {
    pub fn as_str(&self) -> (s: &'static str)
        ensures
            s@ == animation_name(*self),
    {
        match self {
            Animation::Idle => "preset:idle",
            Animation::Walk => "preset:walk",
            Animation::Run => "preset:run",
            Animation::Dive => "preset:dive",
            Animation::Climb => "preset:climb",
            Animation::Jump => "preset:jump",
            Animation::Slash => "preset:slash",
            Animation::Shoot => "preset:shoot",
            Animation::Hurt => "preset:hurt",
            Animation::Fall => "preset:fall",
            Animation::Turn => "preset:turn",
            Animation::QuadrupedWalk => "preset:quadruped:walk",
            Animation::HexapodWalk => "preset:hexapod:walk",
            Animation::OctopodWalk => "preset:octopod:walk",
            Animation::SerpentineMarch => "preset:serpentine:march",
            Animation::AquaticMarch => "preset:aquatic:march",
        }
    }
}

/// Skeleton topology types for `POST /v3/animations/rig`.
#[derive(Debug, Clone, Copy, PartialEq, Eq, Hash, Structural)]
pub enum RigType {
    Biped,
    Quadruped,
    Hexapod,
    Octopod,
    Avian,
    Serpentine,
    Aquatic,
    Others,
}

/// The name of a [`RigType`] on the wire.
pub open spec fn rig_type_name(v: RigType) -> Seq<char> {
    match v {
        RigType::Biped => "biped"@,
        RigType::Quadruped => "quadruped"@,
        RigType::Hexapod => "hexapod"@,
        RigType::Octopod => "octopod"@,
        RigType::Avian => "avian"@,
        RigType::Serpentine => "serpentine"@,
        RigType::Aquatic => "aquatic"@,
        RigType::Others => "others"@,
    }
}

impl RigType {
    pub fn as_str(&self) -> (s: &'static str)
        ensures
            s@ == rig_type_name(*self),
    {
        match self {
            RigType::Biped => "biped",
            RigType::Quadruped => "quadruped",
            RigType::Hexapod => "hexapod",
            RigType::Octopod => "octopod",
            RigType::Avian => "avian",
            RigType::Serpentine => "serpentine",
            RigType::Aquatic => "aquatic",
            RigType::Others => "others",
        }
    }
}

/// Rig specifications — controls bone naming/hierarchy conventions.
#[derive(Debug, Clone, Copy, PartialEq, Eq, Hash, Structural)]
pub enum RigSpec {
    Mixamo,
    Tripo,
}

/// The name of a [`RigSpec`] on the wire.
pub open spec fn rig_spec_name(v: RigSpec) -> Seq<char> {
    match v {
        RigSpec::Mixamo => "mixamo"@,
        RigSpec::Tripo => "tripo"@,
    }
}

impl RigSpec {
    pub fn as_str(&self) -> (s: &'static str)
        ensures
            s@ == rig_spec_name(*self),
    {
        match self {
            RigSpec::Mixamo => "mixamo",
            RigSpec::Tripo => "tripo",
        }
    }
}

/// Output format for rig / retarget tasks.
#[derive(Debug, Clone, Copy, PartialEq, Eq, Hash, Structural)]
pub enum AnimOutFormat {
    Glb,
    Fbx,
}

/// The name of a [`AnimOutFormat`] on the wire.
pub open spec fn anim_out_format_name(v: AnimOutFormat) -> Seq<char> {
    match v {
        AnimOutFormat::Glb => "glb"@,
        AnimOutFormat::Fbx => "fbx"@,
    }
}

impl AnimOutFormat {
    pub fn as_str(&self) -> (s: &'static str)
        ensures
            s@ == anim_out_format_name(*self),
    {
        match self {
            AnimOutFormat::Glb => "glb",
            AnimOutFormat::Fbx => "fbx",
        }
    }
}

/// Model conversion output formats accepted by `POST /v3/models/convert`.
#[derive(Debug, Clone, Copy, PartialEq, Eq, Hash, Structural)]
pub enum OutputFormat {
    Gltf,
    Glb,
    Usdz,
    Fbx,
    Obj,
    Stl,
    ThreeMf,
}

/// The name of a [`OutputFormat`] on the wire.
pub open spec fn output_format_name(v: OutputFormat) -> Seq<char> {
    match v {
        OutputFormat::Gltf => "GLTF"@,
        OutputFormat::Glb => "GLB"@,
        OutputFormat::Usdz => "USDZ"@,
        OutputFormat::Fbx => "FBX"@,
        OutputFormat::Obj => "OBJ"@,
        OutputFormat::Stl => "STL"@,
        OutputFormat::ThreeMf => "3MF"@,
    }
}

impl OutputFormat {
    pub fn as_str(&self) -> (s: &'static str)
        ensures
            s@ == output_format_name(*self),
    {
        match self {
            OutputFormat::Gltf => "GLTF",
            OutputFormat::Glb => "GLB",
            OutputFormat::Usdz => "USDZ",
            OutputFormat::Fbx => "FBX",
            OutputFormat::Obj => "OBJ",
            OutputFormat::Stl => "STL",
            OutputFormat::ThreeMf => "3MF",
        }
    }
}

/// Texture image formats supported by the conversion API.
#[derive(Debug, Clone, Copy, PartialEq, Eq, Hash, Structural)]
pub enum TextureFormat {
    Bmp,
    Dpx,
    Hdr,
    Jpeg,
    OpenExr,
    Png,
    Targa,
    Tiff,
    Webp,
}

/// The name of a [`TextureFormat`] on the wire.
pub open spec fn texture_format_name(v: TextureFormat) -> Seq<char> {
    match v {
        TextureFormat::Bmp => "BMP"@,
        TextureFormat::Dpx => "DPX"@,
        TextureFormat::Hdr => "HDR"@,
        TextureFormat::Jpeg => "JPEG"@,
        TextureFormat::OpenExr => "OPEN_EXR"@,
        TextureFormat::Png => "PNG"@,
        TextureFormat::Targa => "TARGA"@,
        TextureFormat::Tiff => "TIFF"@,
        TextureFormat::Webp => "WEBP"@,
    }
}

impl TextureFormat {
    pub fn as_str(&self) -> (s: &'static str)
        ensures
            s@ == texture_format_name(*self),
    {
        match self {
            TextureFormat::Bmp => "BMP",
            TextureFormat::Dpx => "DPX",
            TextureFormat::Hdr => "HDR",
            TextureFormat::Jpeg => "JPEG",
            TextureFormat::OpenExr => "OPEN_EXR",
            TextureFormat::Png => "PNG",
            TextureFormat::Targa => "TARGA",
            TextureFormat::Tiff => "TIFF",
            TextureFormat::Webp => "WEBP",
        }
    }
}

} // verus!
