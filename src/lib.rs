//! Worker-node agent core: device registration, credential lifetime,
//! heartbeat and job-stream state machines, and bounded retry with backoff.
//!
//! Every function here is pure decision logic over plain values; the caller
//! performs the I/O each state machine asks for and feeds the outcome back.
pub mod config;
pub mod device;
pub mod hardware;
pub mod heartbeat;
pub mod probe;
pub mod registration;
pub mod retry;
pub mod runtime;
pub mod stable_diffusion;
pub mod stream;
pub mod task;
pub mod text;
pub mod token;

pub use config::{ConfigManager, NodeConfig, API_BASE_URL};
pub use device::{
    DeviceError, DeviceHeartbeatRequest, DeviceHeartbeatResponse, DeviceInfo, DeviceInitRequest,
    DeviceInitResponse, DeviceManager, DeviceMetrics, DeviceRefreshResponse, DeviceVerifyResponse, GpuInfo,
};
pub use hardware::{decimal_string, generate_system_fingerprint, GpuMetrics, HardwareInfo};
pub use heartbeat::{
    HeartbeatAction, HeartbeatEvent, HeartbeatLoop, HeartbeatPhase, HEARTBEAT_INTERVAL_SECONDS,
    TOKEN_REFRESH_THRESHOLD_SECONDS,
};
pub use probe::{
    cpu_serial_from_cpuinfo, cuda_version_from_nvcc, lines_of, parse_reading, parse_small_reading, parse_u64,
    trim_text, words_of,
};
pub use registration::{
    attempt_budget, Credential, RegistrationEnd, RegistrationFlow, RegistrationStep, DEVICE_VERIFY_POLL_INTERVAL,
};
pub use retry::{ErrorClass, RetryOutcome, RetryPolicy};
pub use runtime::{EnvironmentError, ProbeStatus, RuntimeChecker};
pub use stable_diffusion::{
    classify_reply, BackendReply, GenerationStep, ResolvedParams, SDConfig, StableDiffusion, TextToImageParams,
};
pub use stream::{stream_step, StreamAction, StreamEvent, StreamState, MAX_RECONNECT_ATTEMPTS, SETTLE_DELAY_SECS};
pub use task::{JobParams, PromptParam, TaskMessage, TaskProcessor, TaskProcessorConfig, TaskResult, TaskStep};
pub use text::{contains_str, split_on, split_on_dot};
pub use token::{get_token_expiry, should_refresh};
