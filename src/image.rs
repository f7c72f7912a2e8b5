//! Image generation: preparing the request, the job state machine around
//! the model change and the generation call, and decoding the result.
use vstd::prelude::*;

use crate::error::ClientError;
use crate::wire::text_of;

verus! {

/// What base64's standard engine decodes `s` to, or `None` where it
/// refuses `s`.
pub uninterp spec fn base64_standard(s: Seq<char>) -> Option<Seq<u8>>;

/// Relies on `base64::Engine::decode` with the `STANDARD` engine (standard
/// alphabet, padding): the bytes that `s` encodes, or an error, depending on
/// `s` alone.
#[verifier::external_body]
fn decode_base64(s: &str) -> (r: Option<Vec<u8>>)
    ensures
        r is Some <==> base64_standard(s@) is Some,
        r matches Some(b) ==> base64_standard(s@) == Some(b@),
{
    base64::Engine::decode(&base64::engine::general_purpose::STANDARD, s).ok()
}

/// Decodes the first image of a generation response. No image is a hard
/// failure; images after the first are ignored.
pub fn decode_first_image(images: &Vec<String>) -> (r: Result<Vec<u8>, ClientError>)
    ensures
        images@.len() == 0 ==> r matches Err(ClientError::EmptyResult),
        images@.len() > 0 ==> match base64_standard(images@[0]@) {
            Some(b) => r matches Ok(v) && v@ == b,
            None => r matches Err(ClientError::Encoding),
        },
{
    if images.len() == 0 {
        return Err(ClientError::EmptyResult);
    }
    match decode_base64(images[0].as_str()) {
        Some(b) => Ok(b),
        None => Err(ClientError::Encoding),
    }
}

pub open spec fn digit_char(d: nat) -> char {
    if d == 0 {
        '0'
    } else if d == 1 {
        '1'
    } else if d == 2 {
        '2'
    } else if d == 3 {
        '3'
    } else if d == 4 {
        '4'
    } else if d == 5 {
        '5'
    } else if d == 6 {
        '6'
    } else if d == 7 {
        '7'
    } else if d == 8 {
        '8'
    } else {
        '9'
    }
}

/// The decimal digits of `n`.
pub open spec fn decimal(n: nat) -> Seq<char>
    decreases n,
{
    if n < 10 {
        seq![digit_char(n)]
    } else {
        decimal(n / 10).push(digit_char(n % 10))
    }
}

/// A weight kept in tenths, written with one decimal (`7` is `0.7`).
pub open spec fn tenths_text(t: nat) -> Seq<char> {
    decimal(t / 10) + seq!['.', digit_char(t % 10)]
}

/// `prompt` followed by the LoRA reference ` <lora:name:weight>`.
pub open spec fn lora_prompt(prompt: Seq<char>, name: Seq<char>, weight_tenths: nat) -> Seq<char> {
    prompt + seq![' ', '<', 'l', 'o', 'r', 'a', ':'] + name + seq![':'] + tenths_text(weight_tenths)
        + seq!['>']
}

fn digit_str(d: u32) -> (r: &'static str)
    requires
        d < 10,
    ensures
        r@ == seq![digit_char(d as nat)],
{
    proof {
        reveal_strlit("0");
        reveal_strlit("1");
        reveal_strlit("2");
        reveal_strlit("3");
        reveal_strlit("4");
        reveal_strlit("5");
        reveal_strlit("6");
        reveal_strlit("7");
        reveal_strlit("8");
        reveal_strlit("9");
    }
    let r = if d == 0 {
        "0"
    } else if d == 1 {
        "1"
    } else if d == 2 {
        "2"
    } else if d == 3 {
        "3"
    } else if d == 4 {
        "4"
    } else if d == 5 {
        "5"
    } else if d == 6 {
        "6"
    } else if d == 7 {
        "7"
    } else if d == 8 {
        "8"
    } else {
        "9"
    };
    assert(r@ =~= seq![digit_char(d as nat)]);
    r
}

fn append_decimal(s: &mut String, n: u32)
    ensures
        final(s)@ == old(s)@ + decimal(n as nat),
    decreases n,
{
    if n >= 10 {
        append_decimal(s, n / 10);
    }
    s.append(digit_str(n % 10));
    assert(final(s)@ =~= old(s)@ + decimal(n as nat));
}

/// Appends the LoRA reference `<lora:name:weight>` to a prompt.
pub fn with_lora(prompt: &str, name: &str, weight_tenths: u32) -> (r: String)
    ensures
        r@ == lora_prompt(prompt@, name@, weight_tenths as nat),
{
    let mut s = String::from_str(prompt);
    s.append(" <lora:");
    s.append(name);
    s.append(":");
    append_decimal(&mut s, weight_tenths / 10);
    s.append(".");
    s.append(digit_str(weight_tenths % 10));
    s.append(">");
    proof {
        reveal_strlit(" <lora:");
        reveal_strlit(":");
        reveal_strlit(".");
        reveal_strlit(">");
        assert(s@ =~= lora_prompt(prompt@, name@, weight_tenths as nat));
    }
    s
}

/// A text-to-image request. Fractional settings are kept as integers:
/// the CFG scale and the hi-res scale in tenths, the denoising strength in
/// hundredths.
#[derive(Debug, Clone)]
pub struct TextToImageRequest {
    pub prompt: String,
    pub negative_prompt: Option<String>,
    pub steps: u32,
    pub cfg_scale_tenths: u32,
    pub width: u32,
    pub height: u32,
    pub sampler_name: String,
    pub scheduler: Option<String>,
    pub seed: Option<i64>,
    pub enable_hr: Option<bool>,
    pub hr_scale_tenths: Option<u32>,
    pub hr_upscaler: Option<String>,
    pub hr_second_pass_steps: Option<u32>,
    pub denoising_strength_hundredths: Option<u32>,
}

/// The hi-res-fix upscale factor used when none is set (2.0).
pub const DEFAULT_HR_SCALE_TENTHS: u32 = 20;

/// The denoising strength used when none is set (0.55).
pub const DEFAULT_DENOISING_HUNDREDTHS: u32 = 55;

/// `req` with each unset hi-res-fix parameter filled with its default:
/// enabled, scale 2.0, the `Latent` upscaler, half the steps (rounded
/// down) for the second pass, and denoising strength 0.55.
pub open spec fn hires_filled(req: TextToImageRequest, r: TextToImageRequest) -> bool {
    &&& r.prompt == req.prompt
    &&& r.negative_prompt == req.negative_prompt
    &&& r.steps == req.steps
    &&& r.cfg_scale_tenths == req.cfg_scale_tenths
    &&& r.width == req.width
    &&& r.height == req.height
    &&& r.sampler_name == req.sampler_name
    &&& r.scheduler == req.scheduler
    &&& r.seed == req.seed
    &&& r.enable_hr == (if req.enable_hr is Some {
        req.enable_hr
    } else {
        Some(true)
    })
    &&& r.hr_scale_tenths == (if req.hr_scale_tenths is Some {
        req.hr_scale_tenths
    } else {
        Some(20u32)
    })
    &&& (if req.hr_upscaler is Some {
        r.hr_upscaler == req.hr_upscaler
    } else {
        text_of(r.hr_upscaler) == Some("Latent"@)
    })
    &&& r.hr_second_pass_steps == (if req.hr_second_pass_steps is Some {
        req.hr_second_pass_steps
    } else {
        Some(req.steps / 2)
    })
    &&& r.denoising_strength_hundredths == (if req.denoising_strength_hundredths is Some {
        req.denoising_strength_hundredths
    } else {
        Some(55u32)
    })
}

/// Fills the unset hi-res-fix parameters of a request with their defaults.
pub fn fill_hires_defaults(req: TextToImageRequest) -> (r: TextToImageRequest)
    ensures
        hires_filled(req, r),
{
    let mut r = req;
    if r.enable_hr.is_none() {
        r.enable_hr = Some(true);
    }
    if r.hr_scale_tenths.is_none() {
        r.hr_scale_tenths = Some(DEFAULT_HR_SCALE_TENTHS);
    }
    if r.hr_upscaler.is_none() {
        r.hr_upscaler = Some(String::from_str("Latent"));
    }
    if r.hr_second_pass_steps.is_none() {
        r.hr_second_pass_steps = Some(r.steps / 2);
    }
    if r.denoising_strength_hundredths.is_none() {
        r.denoising_strength_hundredths = Some(DEFAULT_DENOISING_HUNDREDTHS);
    }
    r
}

/// The generation settings that the UI edits.
#[derive(Debug, Clone)]
pub struct ImageSettings {
    pub prompt: String,
    pub negative_prompt: String,
    pub steps: u32,
    pub cfg_scale_tenths: u32,
    pub width: u32,
    pub height: u32,
    pub sampler: String,
    pub scheduler: String,
    /// The LoRA selected, if any, and its weight in tenths.
    pub lora: Option<String>,
    pub lora_weight_tenths: u32,
    /// The checkpoint to generate with; empty for the service's current one.
    pub model: String,
}

impl ImageSettings {
    pub fn new() -> (r: ImageSettings)
        ensures
            r.prompt@.len() == 0,
            r.negative_prompt@ == "blurry, low quality, deformed, distorted"@,
            r.steps == 20,
            r.cfg_scale_tenths == 70,
            r.width == 512,
            r.height == 512,
            r.sampler@ == "Euler a"@,
            r.scheduler@ == "Automatic"@,
            r.lora is None,
            r.lora_weight_tenths == 7,
            r.model@.len() == 0,
    {
        ImageSettings {
            prompt: String::new(),
            negative_prompt: String::from_str("blurry, low quality, deformed, distorted"),
            steps: 20,
            cfg_scale_tenths: 70,
            width: 512,
            height: 512,
            sampler: String::from_str("Euler a"),
            scheduler: String::from_str("Automatic"),
            lora: None,
            lora_weight_tenths: 7,
            model: String::new(),
        }
    }

    /// The request for these settings: the prompt with the selected LoRA
    /// appended, the negative prompt and scheduler set, a random seed, and
    /// the hi-res-fix parameters left unset.
    pub fn request(&self) -> (r: TextToImageRequest)
        ensures
            r.prompt@ == (match self.lora {
                Some(name) => lora_prompt(self.prompt@, name@, self.lora_weight_tenths as nat),
                None => self.prompt@,
            }),
            text_of(r.negative_prompt) == Some(self.negative_prompt@),
            r.steps == self.steps,
            r.cfg_scale_tenths == self.cfg_scale_tenths,
            r.width == self.width,
            r.height == self.height,
            r.sampler_name@ == self.sampler@,
            text_of(r.scheduler) == Some(self.scheduler@),
            r.seed is None,
            r.enable_hr is None,
            r.hr_scale_tenths is None,
            r.hr_upscaler is None,
            r.hr_second_pass_steps is None,
            r.denoising_strength_hundredths is None,
    {
        let prompt = match &self.lora {
            Some(name) => with_lora(self.prompt.as_str(), name.as_str(), self.lora_weight_tenths),
            None => self.prompt.clone(),
        };
        TextToImageRequest {
            prompt,
            negative_prompt: Some(self.negative_prompt.clone()),
            steps: self.steps,
            cfg_scale_tenths: self.cfg_scale_tenths,
            width: self.width,
            height: self.height,
            sampler_name: self.sampler.clone(),
            scheduler: Some(self.scheduler.clone()),
            seed: None,
            enable_hr: None,
            hr_scale_tenths: None,
            hr_upscaler: None,
            hr_second_pass_steps: None,
            denoising_strength_hundredths: None,
        }
    }
}

/// Where an image job stands.
#[derive(Debug, Clone)]
pub enum ImageJobState {
    Idle,
    ChangingModel,
    Generating,
    Completed(Vec<u8>),
    Failed(ClientError),
}

/// What the caller is to do next for an image job.
#[derive(Debug, Clone)]
pub enum ImageAction {
    /// Nothing: no call is to be made.
    Nothing,
    /// Ask the service to switch to this checkpoint.
    ChangeModel(String),
    /// Post this generation request.
    Generate(TextToImageRequest),
}

/// The image job of one session: at most one is in flight.
pub struct ImageJob {
    pub state: ImageJobState,
    /// The checkpoint that this client last switched the service to.
    pub checkpoint: Option<String>,
    /// The checkpoint being switched to, while the model changes.
    pub target: String,
    /// The request to post once the model has changed.
    pub pending: Option<TextToImageRequest>,
}

pub open spec fn in_flight(state: ImageJobState) -> bool {
    state is ChangingModel || state is Generating
}

/// Whether submitting for `target` first needs a model change: a target is
/// named and it is not the checkpoint last switched to.
pub open spec fn needs_model_change(checkpoint: Option<String>, target: Seq<char>) -> bool {
    target.len() > 0 && text_of(checkpoint) != Some(target)
}

impl ImageJob {
    pub open spec fn wf(&self) -> bool {
        self.state is ChangingModel ==> self.pending is Some
    }

    pub fn new() -> (r: ImageJob)
        ensures
            r.wf(),
            r.state is Idle,
            r.checkpoint is None,
    {
        ImageJob { state: ImageJobState::Idle, checkpoint: None, target: String::new(), pending: None }
    }

    pub fn is_in_flight(&self) -> (r: bool)
        ensures
            r == in_flight(self.state),
    {
        match self.state {
            ImageJobState::ChangingModel | ImageJobState::Generating => true,
            _ => false,
        }
    }

    /// Submits a request for the checkpoint `target`. A job already in
    /// flight refuses it. Otherwise the hi-res-fix defaults are filled in,
    /// and the job either changes the model first or posts the request
    /// right away.
    pub fn submit(&mut self, request: TextToImageRequest, target: &str) -> (r: ImageAction)
        requires
            old(self).wf(),
        ensures
            final(self).wf(),
            in_flight(old(self).state) ==> (r is Nothing && final(self).state == old(self).state
                && final(self).checkpoint == old(self).checkpoint),
            !in_flight(old(self).state) && needs_model_change(old(self).checkpoint, target@) ==> {
                &&& r matches ImageAction::ChangeModel(m) && m@ == target@
                &&& final(self).state is ChangingModel
                &&& final(self).target@ == target@
                &&& final(self).pending matches Some(p) && hires_filled(request, p)
                &&& final(self).checkpoint == old(self).checkpoint
            },
            !in_flight(old(self).state) && !needs_model_change(old(self).checkpoint, target@) ==> (
            r matches ImageAction::Generate(p) && hires_filled(request, p)
                && final(self).state is Generating && final(self).checkpoint == old(
                self,
            ).checkpoint),
    {
        if self.is_in_flight() {
            return ImageAction::Nothing;
        }
        let req = fill_hires_defaults(request);
        let change = if target.is_empty() {
            false
        } else {
            match &self.checkpoint {
                Some(c) => {
                    let t = String::from_str(target);
                    !(*c == t)
                },
                None => true,
            }
        };
        if change {
            self.state = ImageJobState::ChangingModel;
            self.target = String::from_str(target);
            self.pending = Some(req);
            ImageAction::ChangeModel(String::from_str(target))
        } else {
            self.state = ImageJobState::Generating;
            ImageAction::Generate(req)
        }
    }

    /// The model-change call returned. On success the pending request is
    /// to be posted; on failure the job fails and no generation request is
    /// ever issued for this submission.
    pub fn on_model_changed(&mut self, result: Result<(), ClientError>) -> (r: ImageAction)
        requires
            old(self).wf(),
        ensures
            final(self).wf(),
            !(old(self).state is ChangingModel) ==> (r is Nothing && final(self).state == old(
                self,
            ).state && final(self).checkpoint == old(self).checkpoint),
            old(self).state is ChangingModel && result is Ok ==> (r matches ImageAction::Generate(p)
                && old(self).pending == Some(p) && final(self).state is Generating
                && text_of(final(self).checkpoint) == Some(old(self).target@)),
            old(self).state is ChangingModel ==> (result matches Err(e) ==> (r is Nothing
                && final(self).state == ImageJobState::Failed(e)
                && final(self).pending is None)),
    {
        match self.state {
            ImageJobState::ChangingModel => {},
            _ => return ImageAction::Nothing,
        }
        match result {
            Ok(()) => {
                let mut target = String::new();
                std::mem::swap(&mut target, &mut self.target);
                self.checkpoint = Some(target);
                self.state = ImageJobState::Generating;
                let mut pending: Option<TextToImageRequest> = None;
                std::mem::swap(&mut pending, &mut self.pending);
                match pending {
                    Some(p) => ImageAction::Generate(p),
                    None => ImageAction::Nothing,
                }
            },
            Err(e) => {
                self.pending = None;
                self.state = ImageJobState::Failed(e);
                ImageAction::Nothing
            },
        }
    }

    /// The generation call returned: the job completes with the first
    /// image decoded, or fails.
    pub fn on_generated(&mut self, result: Result<Vec<String>, ClientError>)
        requires
            old(self).wf(),
        ensures
            final(self).wf(),
            final(self).checkpoint == old(self).checkpoint,
            !(old(self).state is Generating) ==> final(self).state == old(self).state,
            old(self).state is Generating ==> match result {
                Err(e) => final(self).state == ImageJobState::Failed(e),
                Ok(images) => if images@.len() == 0 {
                    final(self).state matches ImageJobState::Failed(ClientError::EmptyResult)
                } else {
                    match base64_standard(images@[0]@) {
                        Some(b) => final(self).state matches ImageJobState::Completed(v) && v@ == b,
                        None => final(self).state matches ImageJobState::Failed(ClientError::Encoding),
                    }
                },
            },
    {
        match self.state {
            ImageJobState::Generating => {},
            _ => return ,
        }
        self.state = match result {
            Err(e) => ImageJobState::Failed(e),
            Ok(images) => match decode_first_image(&images) {
                Ok(b) => ImageJobState::Completed(b),
                Err(e) => ImageJobState::Failed(e),
            },
        };
    }
}

} // verus!
