use vstd::prelude::*;
use crate::stable_diffusion::{SDConfig, StableDiffusion, TextToImageParams};

verus! {

/// Where the task processor connects, and which node it serves.
#[derive(Debug, Clone)]
pub struct TaskProcessorConfig {
    pub nats_server: String,
    pub sd_url: String,
    pub node_id: String,
}

/// The `prompt` member of a job's parameters.
#[derive(Debug, Clone)]
pub enum PromptParam {
    Missing,
    NotText,
    Text(String),
}

/// The members of a job's parameter object that the runner reads; a member
/// that is absent or of the wrong JSON type is `None`.
#[derive(Debug, Clone)]
pub struct JobParams {
    pub prompt: PromptParam,
    pub negative_prompt: Option<String>,
    pub width: Option<u64>,
    pub height: Option<u64>,
    pub steps: Option<u64>,
    pub seed: Option<i64>,
}

/// A job as delivered on the stream.
#[derive(Debug, Clone)]
pub struct TaskMessage {
    pub task_id: String,
    pub node_id: String,
    pub params: JobParams,
}

/// The one result published for each received job; durations are in milliseconds.
#[derive(Debug, Clone)]
pub struct TaskResult {
    pub task_id: String,
    pub status: String,
    pub duration_ms: u64,
    pub result_urls: Option<Vec<String>>,
    pub error_stack: Option<String>,
    pub node_id: Option<String>,
    pub retries: u32,
}

/// What the runner does with a received message.
#[derive(Debug, Clone)]
pub enum TaskStep {
    /// Publish this result; no generation is run.
    Publish(TaskResult),
    /// Run generation for the job, then finish it.
    Generate { task_id: String, params: TextToImageParams },
}

/// A failed result as the runner publishes it.
pub open spec fn is_failed_result(r: TaskResult, task_id: Seq<char>, node_id: Seq<char>, detail: Seq<char>) -> bool {
    &&& r.task_id@ == task_id
    &&& r.status@ == "failed"@
    &&& r.result_urls is None
    &&& r.error_stack matches Some(e) && e@ == detail
    &&& r.node_id matches Some(n) && n@ == node_id
    &&& r.retries == 0
}

/// The generation request of a job whose prompt is `prompt`.
pub open spec fn request_of(params: JobParams, prompt: String) -> TextToImageParams {
    TextToImageParams {
        prompt,
        negative_prompt: params.negative_prompt,
        width: match params.width { Some(w) => Some(w as u32), None => None },
        height: match params.height { Some(h) => Some(h as u32), None => None },
        steps: match params.steps { Some(s) => Some(s as u32), None => None },
        seed: params.seed,
    }
}

/// Relies on uuid's `Uuid::new_v4` and its `Display`: a random UUID in
/// hyphenated form, 36 characters.
#[verifier::external_body]
fn new_task_id() -> (r: String)
    ensures
        r@.len() == 36,
{
    uuid::Uuid::new_v4().to_string()
}

/// Runs received jobs against the compute backend, one result per job.
#[derive(Debug, Clone)]
pub struct TaskProcessor {
    config: TaskProcessorConfig,
    sd: StableDiffusion,
}

impl TaskProcessor {
    pub closed spec fn spec_node_id(&self) -> Seq<char> {
        self.config.node_id@
    }

    pub closed spec fn spec_config(&self) -> TaskProcessorConfig {
        self.config
    }

    pub closed spec fn spec_sd(&self) -> StableDiffusion {
        self.sd
    }

    /// A processor whose backend client has a two-minute request timeout.
    pub fn new(config: TaskProcessorConfig) -> (r: TaskProcessor)
        ensures
            r.spec_config() == config,
            r.spec_node_id() == config.node_id@,
            r.spec_sd().spec_config().base_url == config.sd_url,
            r.spec_sd().spec_config().timeout == Some(120000u64),
    {
        let sd = StableDiffusion::new(SDConfig { base_url: config.sd_url.clone(), timeout: Some(120000) });
        TaskProcessor { config, sd }
    }

    pub fn config(&self) -> (r: &TaskProcessorConfig)
        ensures
            *r == self.spec_config(),
    {
        &self.config
    }

    pub fn backend(&self) -> (r: &StableDiffusion)
        ensures
            *r == self.spec_sd(),
    {
        &self.sd
    }

    /// The subject a job's result is published on: `results.{task_id}`.
    pub fn result_subject(task_id: &str) -> (r: String)
        ensures
            r@ == "results."@ + task_id@,
    {
        String::from_str("results.").concat(task_id)
    }

    fn failed_result(&self, task_id: String, detail: String, duration_ms: u64) -> (r: TaskResult)
        ensures
            is_failed_result(r, task_id@, self.spec_node_id(), detail@),
            r.task_id == task_id,
            r.duration_ms == duration_ms,
    {
        TaskResult {
            task_id,
            status: String::from_str("failed"),
            duration_ms,
            result_urls: None,
            error_stack: Some(detail),
            node_id: Some(self.config.node_id.clone()),
            retries: 0,
        }
    }

    /// The generation request of a job: its prompt is required and must be
    /// text; the other members are optional, and an out-of-range number is
    /// cut to its low 32 bits.
    pub fn generation_params(params: &JobParams) -> (r: Result<TextToImageParams, String>)
        ensures
            match params.prompt {
                PromptParam::Text(p) => r == Ok::<TextToImageParams, String>(request_of(*params, p)),
                PromptParam::Missing => r matches Err(e) && e@ == "Missing required parameter: prompt"@,
                PromptParam::NotText => r matches Err(e) && e@ == "Prompt must be a string"@,
            },
    {
        let prompt = match &params.prompt {
            PromptParam::Text(p) => p.clone(),
            PromptParam::Missing => {
                return Err(String::from_str("Missing required parameter: prompt"));
            },
            PromptParam::NotText => {
                return Err(String::from_str("Prompt must be a string"));
            },
        };
        Ok(TextToImageParams {
            prompt,
            negative_prompt: params.negative_prompt.clone(),
            width: match params.width { Some(w) => Some(w as u32), None => None },
            height: match params.height { Some(h) => Some(h as u32), None => None },
            steps: match params.steps { Some(s) => Some(s as u32), None => None },
            seed: params.seed,
        })
    }

    /// Decides what to do with a received message: a payload that did not
    /// parse gets a failed result under a fresh task id; a job for another
    /// node, or without a usable prompt, gets a failed result; any other job
    /// goes to generation.
    pub fn process_task(&self, message: Result<TaskMessage, String>) -> (r: TaskStep)
        ensures
            match message {
                Err(e) => r matches TaskStep::Publish(res) && res.task_id@.len() == 36
                    && is_failed_result(res, res.task_id@, self.spec_node_id(),
                        "Failed to parse task message: "@ + e@) && res.duration_ms == 0,
                Ok(m) => if m.node_id@ != self.spec_node_id() {
                    r matches TaskStep::Publish(res) && is_failed_result(res, m.task_id@, self.spec_node_id(),
                        "Invalid node ID"@) && res.duration_ms == 0
                } else {
                    match m.params.prompt {
                        PromptParam::Text(p) => r == (TaskStep::Generate { task_id: m.task_id, params: request_of(m.params, p) }),
                        PromptParam::Missing => r matches TaskStep::Publish(res) && is_failed_result(res, m.task_id@,
                            self.spec_node_id(), "Missing required parameter: prompt"@) && res.duration_ms == 0,
                        PromptParam::NotText => r matches TaskStep::Publish(res) && is_failed_result(res, m.task_id@,
                            self.spec_node_id(), "Prompt must be a string"@) && res.duration_ms == 0,
                    }
                },
            },
    {
        match message {
            Err(e) => {
                let detail = String::from_str("Failed to parse task message: ").concat(e.as_str());
                TaskStep::Publish(self.failed_result(new_task_id(), detail, 0))
            },
            Ok(m) => {
                if m.node_id != self.config.node_id {
                    return TaskStep::Publish(self.failed_result(m.task_id, String::from_str("Invalid node ID"), 0));
                }
                match Self::generation_params(&m.params) {
                    Ok(t) => TaskStep::Generate { task_id: m.task_id, params: t },
                    Err(e) => TaskStep::Publish(self.failed_result(m.task_id, e, 0)),
                }
            },
        }
    }

    /// The result of a job that went to generation: completed with the image
    /// URLs, or failed with the error text.
    pub fn finish_task(&self, task_id: String, outcome: Result<Vec<String>, String>, duration_ms: u64) -> (r:
        TaskResult)
        ensures
            r.task_id == task_id,
            r.duration_ms == duration_ms,
            r.retries == 0,
            r.node_id matches Some(n) && n@ == self.spec_node_id(),
            match outcome {
                Ok(urls) => r.status@ == "completed"@ && r.result_urls == Some(urls) && r.error_stack == None::<String>,
                Err(e) => is_failed_result(r, task_id@, self.spec_node_id(), e@),
            },
    {
        match outcome {
            Ok(urls) => TaskResult {
                task_id,
                status: String::from_str("completed"),
                duration_ms,
                result_urls: Some(urls),
                error_stack: None,
                node_id: Some(self.config.node_id.clone()),
                retries: 0,
            },
            Err(e) => self.failed_result(task_id, e, duration_ms),
        }
    }
}

} // verus!
