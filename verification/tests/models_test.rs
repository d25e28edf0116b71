use tripo3d_sdk::constants::{model_version, view};
use tripo3d_sdk::models::{FileInputWire, MultiviewTaskRef};
use tripo3d_sdk::params::{MultiviewInputs, MultiviewToModelParams};
use tripo3d_sdk::text::decimal_string;
use tripo3d_sdk::{
    AnimOutFormat, Animation, Error, FileDescriptor, FileInput, ObjectRef, OutputFormat, RigSpec,
    RigType, Task, TaskOutput, TaskStatus, TextureFormat,
};

fn task(status: TaskStatus, output: Option<TaskOutput>) -> Task {
    Task {
        task_id: "t1".into(),
        task_type: "text_to_model".into(),
        status,
        progress: None,
        output,
        created_at: None,
        completed_at: None,
        running_left_time: None,
        queuing_num: None,
        error_code: Some(42),
        error_message: Some("nope".into()),
    }
}

#[test]
fn primary_model_url_follows_the_priority_order() {
    let mut o = TaskOutput {
        model_urls: Some(vec!["u0".into(), "u1".into()]),
        ..Default::default()
    };
    assert_eq!(o.primary_model_url().map(String::as_str), Some("u0"));
    o.base_model = Some("base".into());
    assert_eq!(o.primary_model_url().map(String::as_str), Some("base"));
    o.pbr_model = Some("pbr".into());
    assert_eq!(o.primary_model_url().map(String::as_str), Some("pbr"));
    o.model = Some("model".into());
    assert_eq!(o.primary_model_url().map(String::as_str), Some("model"));
    o.model_url = Some("model_url".into());
    assert_eq!(o.primary_model_url().map(String::as_str), Some("model_url"));
    assert_eq!(TaskOutput::default().primary_model_url(), None);
    let empty = TaskOutput { model_urls: Some(vec![]), ..Default::default() };
    assert_eq!(empty.primary_model_url(), None);
    assert_eq!(task(TaskStatus::Success, None).primary_model_url(), None);
    assert_eq!(
        task(TaskStatus::Success, Some(o)).primary_model_url().map(String::as_str),
        Some("model_url")
    );
}

#[test]
fn file_inputs_collapse_to_descriptors() {
    let d = FileInput::Ref("https://ex.com/a.png".into()).into_descriptor();
    assert_eq!(d.url.as_deref(), Some("https://ex.com/a.png"));
    assert!(d.file_token.is_none());
    let d = FileInput::Ref("8f2a4c".into()).into_descriptor();
    assert_eq!(d.file_token.as_deref(), Some("8f2a4c"));
    assert!(d.url.is_none());
    let d = FileInput::Ref("http:/x".into()).into_descriptor();
    assert_eq!(d.file_token.as_deref(), Some("http:/x"));
    let d = FileInput::FileToken("tok".into()).into_descriptor();
    assert_eq!(d.file_token.as_deref(), Some("tok"));
    let object = ObjectRef { bucket: "tripo-data".into(), key: "uploads/abc.png".into() };
    let original = FileDescriptor { object: Some(object), ..Default::default() };
    let back = FileInput::from(original).into_descriptor();
    assert_eq!(back.object.as_ref().map(|o| o.key.as_str()), Some("uploads/abc.png"));
    assert!(FileInput::Empty.into_descriptor().url.is_none());
}

#[test]
fn file_input_emptiness() {
    assert!(FileInput::Empty.is_empty());
    assert!(FileInput::default().is_empty());
    assert!(FileInput::Ref(String::new()).is_empty());
    assert!(FileInput::Url(String::new()).is_empty());
    assert!(FileInput::FileToken(String::new()).is_empty());
    assert!(FileInput::Descriptor(FileDescriptor { file_type: Some("png".into()), ..Default::default() }).is_empty());
    assert!(!FileInput::Descriptor(FileDescriptor { url: Some(String::new()), ..Default::default() }).is_empty());
    assert!(!FileInput::from("a".to_string()).is_empty());
}

#[test]
fn file_inputs_on_the_wire() {
    match FileInput::Ref("https://ex.com/a.png".into()).into_wire() {
        FileInputWire::Text(t) => assert_eq!(t, "https://ex.com/a.png"),
        other => panic!("unexpected {other:?}"),
    }
    match FileInput::Empty.into_wire() {
        FileInputWire::Text(t) => assert_eq!(t, ""),
        other => panic!("unexpected {other:?}"),
    }
    match FileInput::Url("https://ex.com/a.png".into()).into_wire() {
        FileInputWire::Object(d) => {
            assert_eq!(d.url.as_deref(), Some("https://ex.com/a.png"));
            assert!(d.file_token.is_none() && d.object.is_none() && d.file_type.is_none());
        }
        other => panic!("unexpected {other:?}"),
    }
    match FileInput::FileToken("ftok".into()).into_wire() {
        FileInputWire::Object(d) => assert_eq!(d.file_token.as_deref(), Some("ftok")),
        other => panic!("unexpected {other:?}"),
    }
}

#[test]
fn multiview_views_keep_their_positions() {
    let p = MultiviewToModelParams::from_views([
        Some(FileInput::Ref("front.png".into())),
        None,
        Some(FileInput::Ref("back.png".into())),
        None,
    ]);
    match p.inputs {
        Some(MultiviewInputs::Views(v)) => {
            assert!(matches!(&v[0], FileInput::Ref(s) if s == "front.png"));
            assert!(v[1].is_empty());
            assert!(matches!(&v[2], FileInput::Ref(s) if s == "back.png"));
            assert!(v[3].is_empty());
        }
        other => panic!("unexpected {other:?}"),
    }
    match MultiviewToModelParams::from_task_id("task_mv_src".into()).inputs {
        Some(MultiviewInputs::TaskId([MultiviewTaskRef { task_id }])) => assert_eq!(task_id, "task_mv_src"),
        other => panic!("unexpected {other:?}"),
    }
}

#[test]
fn task_statuses() {
    for s in [TaskStatus::Success, TaskStatus::Failed, TaskStatus::Cancelled, TaskStatus::Banned, TaskStatus::Expired] {
        assert!(s.is_terminal());
    }
    for s in [TaskStatus::Queued, TaskStatus::Running, TaskStatus::Unknown] {
        assert!(!s.is_terminal());
    }
    assert!(TaskStatus::Success.is_success());
    assert!(!TaskStatus::Failed.is_success());
    assert_eq!(TaskStatus::Cancelled.as_str(), "cancelled");
    let e = Error::Task { task: Box::new(task(TaskStatus::Failed, None)) };
    assert_eq!(e.task().map(|t| t.error_code), Some(Some(42)));
    assert_eq!(e.describe(), "task t1 ended with status \"failed\": nope");
    assert!(Error::invalid_argument("x").task().is_none());
}

#[test]
fn constants_read_as_documented() {
    assert_eq!(Animation::Walk.as_str(), "preset:walk");
    assert_eq!(Animation::QuadrupedWalk.as_str(), "preset:quadruped:walk");
    assert_eq!(Animation::AquaticMarch.as_str(), "preset:aquatic:march");
    assert_eq!(RigType::Biped.as_str(), "biped");
    assert_eq!(RigSpec::Mixamo.as_str(), "mixamo");
    assert_eq!(AnimOutFormat::Fbx.as_str(), "fbx");
    assert_eq!(OutputFormat::Fbx.as_str(), "FBX");
    assert_eq!(OutputFormat::ThreeMf.as_str(), "3MF");
    assert_eq!(TextureFormat::OpenExr.as_str(), "OPEN_EXR");
    assert_eq!(model_version::H3_1, "v3.1-20260211");
    assert_eq!(model_version::P1, "P1-20260311");
    assert_eq!(view::FRONT, "front");
}

#[test]
fn decimal_notation() {
    assert_eq!(decimal_string(0), "0");
    assert_eq!(decimal_string(7), "7");
    assert_eq!(decimal_string(1000), "1000");
    assert_eq!(decimal_string(u64::MAX), u64::MAX.to_string());
}

#[test]
fn animation_wire_names_are_distinct_presets() {
    let all = [
        Animation::Idle,
        Animation::Walk,
        Animation::Run,
        Animation::Dive,
        Animation::Climb,
        Animation::Jump,
        Animation::Slash,
        Animation::Shoot,
        Animation::Hurt,
        Animation::Fall,
        Animation::Turn,
        Animation::QuadrupedWalk,
        Animation::HexapodWalk,
        Animation::OctopodWalk,
        Animation::SerpentineMarch,
        Animation::AquaticMarch,
    ];
    for (i, a) in all.iter().enumerate() {
        assert!(a.as_str().starts_with("preset:"), "{}", a.as_str());
        for (j, b) in all.iter().enumerate() {
            assert_eq!(a.as_str() == b.as_str(), i == j);
        }
    }
}
