use tripo3d_sdk::client::{poll_decision, task_path, timeout_error, urlencoding_encode, PollAction};
use tripo3d_sdk::models::{FileInput, MultiviewPrompt};
use tripo3d_sdk::params::{
    ConvertModelParams, EditMultiviewParams, ImageToImageParams, ImageToModelParams,
    MultiviewToModelParams, RetargetAnimationParams, RigCheckParams, RigModelParams,
    TextToImageParams, TextToModelParams,
};
use tripo3d_sdk::requests::{
    convert_model_route, edit_multiview_route, image_to_image_route, image_to_model_route,
    list_tasks_route, multiview_to_model_route, retarget_animation_route, rig_check_route,
    rig_model_route, text_to_image_route, text_to_model_route,
};
use tripo3d_sdk::{ClientOptions, DownloadedModel, Error, TaskStatus, WaitOptions};

fn is_invalid_argument<T>(r: &Result<T, Error>) -> bool {
    matches!(r, Err(Error::InvalidArgument(_)))
}

#[test]
fn downloaded_model_extension_tracks_the_url() {
    // quad=true generations return FBX, so the extension cannot be assumed.
    for (url, want_ext, want_name) in [
        ("https://cdn/a/model.glb", Some("glb"), "out.glb"),
        (
            "https://cdn/a/model.fbx?auth_key=1-abc-0-def",
            Some("fbx"),
            "out.fbx",
        ),
        ("https://cdn/a/model.USDZ#frag", Some("usdz"), "out.usdz"),
        ("https://cdn/a/model", None, "out.glb"),
        ("https://cdn/a.b/model?x=1", None, "out.glb"),
    ] {
        let d = DownloadedModel {
            url: url.to_string(),
            content_type: None,
            data: Vec::new(),
        };
        assert_eq!(d.extension().as_deref(), want_ext, "extension of {url}");
        assert_eq!(d.filename("out"), want_name, "filename of {url}");
    }
}

#[test]
fn constructor_requires_api_key() {
    let result = ClientOptions::default().into_config(None);
    assert!(is_invalid_argument(&result));
}

#[test]
fn client_options_fall_back_to_the_environment_and_defaults() {
    let config = ClientOptions::default()
        .into_config(Some("env-key".to_string()))
        .unwrap();
    assert_eq!(config.api_key, "env-key");
    assert_eq!(config.base_url, "https://openapi.tripo3d.com/v3");
    assert_eq!(config.timeout_ms, 60_000);
    assert_eq!(config.retries, 2);
    assert_eq!(config.user_agent, "tripo3d-sdk-rust/0.1.0");

    let config = ClientOptions {
        api_key: Some("test-key".into()),
        base_url: Some("http://127.0.0.1:9".into()),
        timeout_ms: Some(5000),
        retries: Some(1),
        user_agent: Some("ua".into()),
    }
    .into_config(Some("env-key".to_string()))
    .unwrap();
    assert_eq!(config.api_key, "test-key");
    assert_eq!(config.base_url, "http://127.0.0.1:9");
    assert_eq!(config.timeout_ms, 5000);
    assert_eq!(config.retries, 1);
    assert_eq!(config.user_agent, "ua");
}

#[test]
fn text_to_model_rejects_empty_prompt() {
    assert!(is_invalid_argument(&text_to_model_route(&TextToModelParams::new(String::new()))));
    assert!(is_invalid_argument(&text_to_model_route(&TextToModelParams::new(" \t\n\u{3000}".to_string()))));
    assert_eq!(
        text_to_model_route(&TextToModelParams {
            model: Some("v3.1-20260211".into()),
            texture: Some(true),
            ..TextToModelParams::new("a cat".into())
        })
        .unwrap(),
        "/generation/text-to-model"
    );
}

#[test]
fn image_to_model_rejects_missing_file() {
    assert!(is_invalid_argument(&image_to_model_route(&ImageToModelParams::default())));
    assert!(is_invalid_argument(&image_to_model_route(&ImageToModelParams::new(FileInput::Url(String::new())))));
    assert_eq!(
        image_to_model_route(&ImageToModelParams::new(FileInput::from("https://ex.com/a.png".to_string()))).unwrap(),
        "/generation/image-to-model"
    );
}

#[test]
fn multiview_to_model_rejects_invalid_inputs() {
    for params in [
        MultiviewToModelParams::default(),
        MultiviewToModelParams::from_views([None, Some(FileInput::Ref("left.png".into())), None, None]),
        MultiviewToModelParams::from_views([Some(FileInput::Ref("front.png".into())), None, None, None]),
    ] {
        assert!(is_invalid_argument(&multiview_to_model_route(&params)));
    }
}

#[test]
fn multiview_to_model_accepts_two_views_or_a_task_id() {
    let two = MultiviewToModelParams::from_views([
        Some(FileInput::Ref("front.png".into())),
        None,
        Some(FileInput::Ref("back.png".into())),
        None,
    ]);
    assert_eq!(multiview_to_model_route(&two).unwrap(), "/generation/multiview-to-model");
    let reuse = MultiviewToModelParams::from_task_id("task_mv_src".into());
    assert_eq!(multiview_to_model_route(&reuse).unwrap(), "/generation/multiview-to-model");
}

#[test]
fn image_to_image_rejects_invalid_inputs() {
    for params in [
        ImageToImageParams {
            prompt: Some("x".into()),
            ..Default::default()
        },
        ImageToImageParams {
            inputs: Some(vec![FileInput::Ref("b".into())]),
            ..ImageToImageParams::new(FileInput::Ref("a".into()), "x".into())
        },
        ImageToImageParams {
            input: Some(FileInput::Ref("a".into())),
            ..Default::default()
        },
    ] {
        assert!(is_invalid_argument(&image_to_image_route(&params)));
    }
    let ok = ImageToImageParams::from_inputs(
        vec![FileInput::Ref("https://ex.com/a.png".into()), FileInput::Ref("ftok-b".into())],
        "use image[1] and image[2]".into(),
    );
    assert_eq!(image_to_image_route(&ok).unwrap(), "/generation/image-to-image");
}

#[test]
fn text_to_image_needs_a_prompt_or_a_template() {
    assert!(is_invalid_argument(&text_to_image_route(&TextToImageParams::default())));
    assert_eq!(
        text_to_image_route(&TextToImageParams::from_template("t_pose".into())).unwrap(),
        "/generation/text-to-image"
    );
    assert_eq!(
        text_to_image_route(&TextToImageParams::new("a glass sneaker".into())).unwrap(),
        "/generation/text-to-image"
    );
}

#[test]
fn edit_multiview_rejects_invalid_prompts() {
    for params in [
        EditMultiviewParams::new(String::new(), vec![MultiviewPrompt::new("x".into(), "front".into())]),
        EditMultiviewParams::new("task_mv_src".into(), vec![]),
        EditMultiviewParams::new(
            "task_mv_src".into(),
            (0..5).map(|_| MultiviewPrompt::new("x".into(), "front".into())).collect(),
        ),
    ] {
        assert!(is_invalid_argument(&edit_multiview_route(&params)));
    }
    let ok = EditMultiviewParams::new(
        "task_mv_src".into(),
        vec![
            MultiviewPrompt::new("make the shirt red".into(), "front".into()),
            MultiviewPrompt::new("add a logo".into(), "back".into()),
        ],
    );
    assert_eq!(edit_multiview_route(&ok).unwrap(), "/generation/edit-multiview");
}

#[test]
fn retarget_animation_rejects_more_than_five_animations() {
    let params = RetargetAnimationParams {
        animations: Some(vec!["preset:walk".into(); 6]),
        ..RetargetAnimationParams::new("x".into())
    };
    assert!(is_invalid_argument(&retarget_animation_route(&params)));
    assert!(is_invalid_argument(&retarget_animation_route(&RetargetAnimationParams::new("x".into()))));
    let five = RetargetAnimationParams {
        animations: Some(vec!["preset:walk".into(); 5]),
        ..RetargetAnimationParams::new("x".into())
    };
    assert_eq!(retarget_animation_route(&five).unwrap(), "/animations/retarget");
}

#[test]
fn rig_check_rig_model_and_retarget_build_correct_routes() {
    assert_eq!(rig_check_route(&RigCheckParams::new("task_src".into())).unwrap(), "/animations/rig-check");
    assert_eq!(
        rig_model_route(&RigModelParams {
            rig_type: Some("biped".into()),
            spec: Some("mixamo".into()),
            ..RigModelParams::new("task_src".into())
        })
        .unwrap(),
        "/animations/rig"
    );
    assert!(is_invalid_argument(&rig_model_route(&RigModelParams::new("  ".into()))));
}

#[test]
fn convert_model_needs_input_and_format() {
    assert!(is_invalid_argument(&convert_model_route(&ConvertModelParams::new("t".into(), " ".into()))));
    assert!(is_invalid_argument(&convert_model_route(&ConvertModelParams::new("".into(), "GLB".into()))));
    assert_eq!(convert_model_route(&ConvertModelParams::new("t".into(), "GLB".into())).unwrap(), "/models/convert");
}

#[test]
fn list_tasks_needs_ids() {
    assert!(is_invalid_argument(&list_tasks_route(&[])));
    assert_eq!(list_tasks_route(&["a".to_string()]).unwrap(), "/tasks/list");
}

#[test]
fn task_paths_are_percent_encoded() {
    assert_eq!(task_path("task_xyz").unwrap(), "/tasks/task_xyz");
    assert_eq!(task_path("a b/c").unwrap(), "/tasks/a%20b%2Fc");
    assert!(is_invalid_argument(&task_path("")));
    assert_eq!(urlencoding_encode("Az09-_.~"), "Az09-_.~");
    assert_eq!(urlencoding_encode("é?"), "%C3%A9%3F");
}

#[test]
fn wait_for_task_polls_until_success() {
    let opts = WaitOptions { poll_interval_ms: 1, ..Default::default() };
    assert_eq!(poll_decision(TaskStatus::Running, &opts, 10), PollAction::Sleep { ms: 1 });
    assert_eq!(poll_decision(TaskStatus::Queued, &opts, 10), PollAction::Sleep { ms: 1 });
    assert_eq!(poll_decision(TaskStatus::Success, &opts, 10), PollAction::Finish);
}

#[test]
fn wait_for_task_raises_task_error_on_failure() {
    let opts = WaitOptions::default();
    for status in [TaskStatus::Failed, TaskStatus::Cancelled, TaskStatus::Banned, TaskStatus::Expired] {
        assert_eq!(poll_decision(status, &opts, 0), PollAction::FailTask);
    }
    let lenient = WaitOptions { throw_on_failure: false, ..Default::default() };
    assert_eq!(poll_decision(TaskStatus::Failed, &lenient, 0), PollAction::Finish);
}

#[test]
fn wait_for_task_respects_timeout() {
    let opts = WaitOptions { poll_interval_ms: 5, timeout_ms: Some(20), ..Default::default() };
    assert_eq!(poll_decision(TaskStatus::Running, &opts, 19), PollAction::Sleep { ms: 5 });
    assert_eq!(poll_decision(TaskStatus::Running, &opts, 20), PollAction::FailTimeout { timeout_ms: 20 });
    // A terminal status wins over an exhausted budget.
    assert_eq!(poll_decision(TaskStatus::Success, &opts, 1000), PollAction::Finish);
    match timeout_error("task_slow", 20) {
        Error::Timeout { task_id, timeout_ms } => {
            assert_eq!(task_id, "task_slow");
            assert_eq!(timeout_ms, 20);
        }
        other => panic!("expected Error::Timeout, got {other:?}"),
    }
}
