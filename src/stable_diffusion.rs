use vstd::prelude::*;
use crate::retry::{ErrorClass, RetryOutcome, RetryPolicy, retry_decision};
use crate::text::{contains, contains_str};

verus! {

/// Where the compute backend listens, and how long one request may take.
#[derive(Debug, Clone)]
pub struct SDConfig {
    pub base_url: String,
    pub timeout: Option<u64>,
}

/// What one request to the generation endpoint came back with.
#[derive(Debug, Clone)]
pub enum BackendReply {
    /// The request could not be sent or no response arrived.
    Unreachable(String),
    /// A non-success HTTP status, with its reason phrase and the response body.
    HttpError { code: u16, status_line: String, body: String },
    /// A success status whose body parsed, with the images it lists.
    Images(Vec<String>),
    /// A success status whose body did not parse as the expected schema.
    Unparsable(String),
}

/// What follows one reply of the backend.
#[derive(Debug, Clone)]
pub enum GenerationStep {
    /// Generation succeeded: the images in data-URL form.
    Done(Vec<String>),
    /// Wait this many milliseconds, then send the request again.
    RetryAfter(u64),
    /// Generation failed for good, with a description.
    Failed(String),
}

/// The data-URL form of a base64-encoded PNG image.
pub open spec fn image_url(data: Seq<char>) -> Seq<char> {
    "data:image/png;base64,"@ + data
}

/// Response-body signatures of transient backend failures.
pub open spec fn transient_body(body: Seq<char>) -> bool {
    contains(body, "'NoneType' object"@) || contains(body, "CUDA out of memory"@)
        || contains(body, "expected scalar type"@)
}

/// How a failed reply is classified: server errors, transient signatures,
/// empty image lists, unparsable bodies and transport failures are retried;
/// any other HTTP error is fatal.
pub open spec fn reply_class(reply: BackendReply) -> ErrorClass {
    match reply {
        BackendReply::HttpError { code, body, .. } =>
            if (500 <= code <= 599) || transient_body(body@) {
                ErrorClass::Retryable
            } else {
                ErrorClass::Fatal
            },
        _ => ErrorClass::Retryable,
    }
}

/// The reply carries at least one image.
pub open spec fn reply_succeeded(reply: BackendReply) -> bool {
    reply matches BackendReply::Images(v) && v@.len() > 0
}

/// Classifies a failed reply.
pub fn classify_reply(reply: &BackendReply) -> (r: ErrorClass)
    ensures
        r == reply_class(*reply),
{
    match reply {
        BackendReply::HttpError { code, body, .. } => {
            let transient = contains_str(body.as_str(), "'NoneType' object")
                || contains_str(body.as_str(), "CUDA out of memory")
                || contains_str(body.as_str(), "expected scalar type");
            proof {
                reveal_strlit("'NoneType' object");
                reveal_strlit("CUDA out of memory");
                reveal_strlit("expected scalar type");
            }
            if (500 <= *code && *code <= 599) || transient {
                ErrorClass::Retryable
            } else {
                ErrorClass::Fatal
            }
        },
        _ => ErrorClass::Retryable,
    }
}

/// Client-side logic of the compute backend's text-to-image endpoint.
#[derive(Debug, Clone)]
pub struct StableDiffusion {
    config: SDConfig,
}

impl StableDiffusion {
    pub closed spec fn spec_config(&self) -> SDConfig {
        self.config
    }

    pub fn new(config: SDConfig) -> (r: StableDiffusion)
        ensures
            r.spec_config() == config,
    {
        StableDiffusion { config }
    }

    /// The request timeout in milliseconds: the configured one, else two minutes.
    pub fn timeout_ms(&self) -> (r: u64)
        ensures
            r == match self.spec_config().timeout {
                Some(t) => t,
                None => 120000,
            },
    {
        match self.config.timeout {
            Some(t) => t,
            None => 120000,
        }
    }

    /// The generation endpoint: `{base_url}/sdapi/v1/txt2img`.
    pub fn txt2img_url(&self) -> (r: String)
        ensures
            r@ == self.spec_config().base_url@ + "/sdapi/v1/txt2img"@,
    {
        self.config.base_url.clone().concat("/sdapi/v1/txt2img")
    }

    /// The retry budget for generation requests.
    pub fn retry_policy(&self) -> (r: RetryPolicy)
        ensures
            r.max_attempts == 5,
            r.initial_delay_ms == 1000,
            r.wf(),
    {
        RetryPolicy::compute_backend()
    }

    /// The data URL of a base64-encoded PNG image.
    pub fn base64_to_image_url(base64_data: &str) -> (r: String)
        ensures
            r@ == image_url(base64_data@),
    {
        String::from_str("data:image/png;base64,").concat(base64_data)
    }

    /// The data URLs of a list of base64-encoded images, in order.
    pub fn image_urls(images: &Vec<String>) -> (r: Vec<String>)
        ensures
            r@.len() == images@.len(),
            forall|i: int| 0 <= i < images@.len() ==> #[trigger] r@[i]@ == image_url(images@[i]@),
    {
        let mut urls: Vec<String> = Vec::new();
        let mut i: usize = 0;
        while i < images.len()
            invariant
                i <= images@.len(),
                urls@.len() == i,
                forall|k: int| 0 <= k < i ==> #[trigger] urls@[k]@ == image_url(images@[k]@),
            decreases images@.len() - i,
        {
            urls.push(Self::base64_to_image_url(images[i].as_str()));
            i = i + 1;
        }
        urls
    }

    /// Decides what follows the reply to attempt `attempt` (counted from 1):
    /// images in URL form when the reply lists any; otherwise a wait before
    /// the next attempt, or failure, as the retry budget decides.
    pub fn after_reply(&self, attempt: u32, reply: BackendReply) -> (r: GenerationStep)
        requires
            1 <= attempt <= 5,
        ensures
            reply_succeeded(reply) ==> (r matches GenerationStep::Done(urls)
                && reply matches BackendReply::Images(images)
                && urls@.len() == images@.len()
                && forall|i: int| 0 <= i < images@.len() ==> #[trigger] urls@[i]@ == image_url(images@[i]@)),
            !reply_succeeded(reply) ==> match retry_decision(RetryPolicy { max_attempts: 5, initial_delay_ms: 1000 }, attempt as nat, reply_class(reply)) {
                Some(delay) => r == GenerationStep::RetryAfter(delay as u64),
                None => r is Failed,
            },
    {
        if let BackendReply::Images(images) = &reply {
            if images.len() > 0 {
                return GenerationStep::Done(Self::image_urls(images));
            }
        }
        let class = classify_reply(&reply);
        let detail = Self::describe_failure(&reply);
        let policy = self.retry_policy();
        match policy.after_failure(attempt, class, detail) {
            RetryOutcome::RetryAfter(d) => GenerationStep::RetryAfter(d),
            RetryOutcome::GiveUp(e) => GenerationStep::Failed(e),
        }
    }

    /// A description of a reply that carries no image.
    fn describe_failure(reply: &BackendReply) -> (r: String) {
        match reply {
            BackendReply::Unreachable(e) => String::from_str("request failed: ").concat(e.as_str()),
            BackendReply::HttpError { status_line, body, .. } =>
                String::from_str("backend request failed: HTTP ").concat(status_line.as_str()).concat(": ").concat(body.as_str()),
            BackendReply::Images(_) => String::from_str("backend returned an empty image list"),
            BackendReply::Unparsable(e) => String::from_str("failed to parse response: ").concat(e.as_str()),
        }
    }
}

} // verus!

verus! {

/// Parameters of one text-to-image request; a missing value takes the
/// backend default. (The guidance scale, a float, is carried beside these.)
#[derive(Debug, Clone)]
pub struct TextToImageParams {
    pub prompt: String,
    pub negative_prompt: Option<String>,
    pub width: Option<u32>,
    pub height: Option<u32>,
    pub steps: Option<u32>,
    pub seed: Option<i64>,
}

/// A request with every default filled in.
#[derive(Debug, Clone)]
pub struct ResolvedParams {
    pub prompt: String,
    pub negative_prompt: String,
    pub width: u32,
    pub height: u32,
    pub steps: u32,
    pub seed: i64,
}

impl TextToImageParams {
    /// Fills in the defaults: empty negative prompt, 512 by 512, 20 steps,
    /// seed -1 (a random seed).
    pub fn resolved(&self) -> (r: ResolvedParams)
        ensures
            r.prompt == self.prompt,
            r.negative_prompt@ == match self.negative_prompt {
                Some(n) => n@,
                None => Seq::<char>::empty(),
            },
            r.width == match self.width { Some(w) => w, None => 512 },
            r.height == match self.height { Some(h) => h, None => 512 },
            r.steps == match self.steps { Some(s) => s, None => 20 },
            r.seed == match self.seed { Some(s) => s, None => -1i64 },
    {
        ResolvedParams {
            prompt: self.prompt.clone(),
            negative_prompt: match &self.negative_prompt {
                Some(n) => n.clone(),
                None => String::new(),
            },
            width: match self.width { Some(w) => w, None => 512 },
            height: match self.height { Some(h) => h, None => 512 },
            steps: match self.steps { Some(s) => s, None => 20 },
            seed: match self.seed { Some(s) => s, None => -1 },
        }
    }
}

} // verus!
