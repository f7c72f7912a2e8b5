use llm_chat::error::ClientError;
use llm_chat::image::{
    decode_first_image, fill_hires_defaults, with_lora, ImageAction, ImageJob, ImageJobState,
    ImageSettings, TextToImageRequest,
};

fn request(steps: u32) -> TextToImageRequest {
    TextToImageRequest {
        prompt: "a cat".to_string(),
        negative_prompt: None,
        steps,
        cfg_scale_tenths: 70,
        width: 512,
        height: 512,
        sampler_name: "Euler a".to_string(),
        scheduler: None,
        seed: None,
        enable_hr: None,
        hr_scale_tenths: None,
        hr_upscaler: None,
        hr_second_pass_steps: None,
        denoising_strength_hundredths: None,
    }
}

fn images(v: &[&str]) -> Vec<String> {
    v.iter().map(|s| s.to_string()).collect()
}

#[test]
fn empty_image_list_is_an_error() {
    assert!(matches!(decode_first_image(&Vec::new()), Err(ClientError::EmptyResult)));
}

#[test]
fn only_the_first_image_is_decoded() {
    assert_eq!(decode_first_image(&images(&["AAAA", "BBBB"])).unwrap(), vec![0u8, 0, 0]);
    assert_eq!(decode_first_image(&images(&["BBBB", "AAAA"])).unwrap(), vec![4u8, 16, 65]);
    assert_eq!(decode_first_image(&images(&["aGk="])).unwrap(), b"hi".to_vec());
}

#[test]
fn malformed_base64_is_an_encoding_error() {
    assert!(matches!(decode_first_image(&images(&["!!!!"])), Err(ClientError::Encoding)));
    assert!(matches!(decode_first_image(&images(&["AAA"])), Err(ClientError::Encoding)));
}

#[test]
fn lora_reference_is_appended_to_the_prompt() {
    assert_eq!(with_lora("a cat", "style", 7), "a cat <lora:style:0.7>");
    assert_eq!(with_lora("p", "x", 10), "p <lora:x:1.0>");
    assert_eq!(with_lora("p", "x", 125), "p <lora:x:12.5>");
    assert_eq!(with_lora("", "x", 0), " <lora:x:0.0>");
}

#[test]
fn hires_defaults_fill_unset_fields() {
    let r = fill_hires_defaults(request(25));
    assert_eq!(r.enable_hr, Some(true));
    assert_eq!(r.hr_scale_tenths, Some(20));
    assert_eq!(r.hr_upscaler, Some("Latent".to_string()));
    assert_eq!(r.hr_second_pass_steps, Some(12));
    assert_eq!(r.denoising_strength_hundredths, Some(55));
    assert_eq!(r.prompt, "a cat");
    assert_eq!(r.steps, 25);
    let mut set = request(20);
    set.enable_hr = Some(false);
    set.hr_second_pass_steps = Some(3);
    set.hr_upscaler = Some("ESRGAN".to_string());
    let r = fill_hires_defaults(set);
    assert_eq!(r.enable_hr, Some(false));
    assert_eq!(r.hr_second_pass_steps, Some(3));
    assert_eq!(r.hr_upscaler, Some("ESRGAN".to_string()));
    assert_eq!(r.hr_scale_tenths, Some(20));
}

#[test]
fn settings_build_the_request() {
    let mut s = ImageSettings::new();
    assert_eq!(s.steps, 20);
    assert_eq!(s.sampler, "Euler a");
    s.prompt = "a dog".to_string();
    let r = s.request();
    assert_eq!(r.prompt, "a dog");
    assert_eq!(r.negative_prompt, Some("blurry, low quality, deformed, distorted".to_string()));
    assert_eq!(r.scheduler, Some("Automatic".to_string()));
    assert_eq!(r.seed, None);
    assert_eq!(r.enable_hr, None);
    s.lora = Some("ink".to_string());
    assert_eq!(s.request().prompt, "a dog <lora:ink:0.7>");
}

#[test]
fn failed_model_change_never_posts_generation() {
    let mut job = ImageJob::new();
    let a = job.submit(request(20), "model-b");
    assert!(matches!(a, ImageAction::ChangeModel(ref m) if m == "model-b"));
    assert!(matches!(job.state, ImageJobState::ChangingModel));
    let a = job.on_model_changed(Err(ClientError::Server { status: 500, body: "no".to_string() }));
    assert!(matches!(a, ImageAction::Nothing));
    assert!(matches!(job.state, ImageJobState::Failed(ClientError::Server { status: 500, .. })));
    assert!(matches!(job.on_model_changed(Ok(())), ImageAction::Nothing));
    job.on_generated(Ok(images(&["AAAA"])));
    assert!(matches!(job.state, ImageJobState::Failed(_)));
    assert_eq!(job.checkpoint, None);
}

#[test]
fn model_change_then_generation_completes() {
    let mut job = ImageJob::new();
    assert!(matches!(job.submit(request(20), "m"), ImageAction::ChangeModel(_)));
    assert!(matches!(job.submit(request(20), "m"), ImageAction::Nothing));
    match job.on_model_changed(Ok(())) {
        ImageAction::Generate(r) => {
            assert_eq!(r.hr_second_pass_steps, Some(10));
            assert_eq!(r.enable_hr, Some(true));
        }
        other => panic!("unexpected {:?}", other),
    }
    assert!(matches!(job.state, ImageJobState::Generating));
    assert_eq!(job.checkpoint, Some("m".to_string()));
    job.on_generated(Ok(images(&["AAAA", "BBBB"])));
    match &job.state {
        ImageJobState::Completed(b) => assert_eq!(b, &vec![0u8, 0, 0]),
        other => panic!("unexpected {:?}", other),
    }
    assert!(matches!(job.submit(request(20), "m"), ImageAction::Generate(_)));
}

#[test]
fn generation_without_model_posts_at_once() {
    let mut job = ImageJob::new();
    assert!(matches!(job.submit(request(4), ""), ImageAction::Generate(_)));
    job.on_generated(Ok(Vec::new()));
    assert!(matches!(job.state, ImageJobState::Failed(ClientError::EmptyResult)));
    assert!(!job.is_in_flight());
    assert!(matches!(job.submit(request(4), ""), ImageAction::Generate(_)));
    job.on_generated(Err(ClientError::Connection("refused".to_string())));
    assert!(matches!(job.state, ImageJobState::Failed(ClientError::Connection(_))));
}

#[test]
fn largest_lora_weight_is_written_in_full() {
    assert_eq!(with_lora("p", "x", u32::MAX), "p <lora:x:429496729.5>");
}
