use vstd::prelude::*;

verus! {

/// What running an environment probe (a command-line tool) showed.
#[derive(Debug, Clone, Copy, PartialEq, Eq, Structural)]
pub enum ProbeStatus {
    /// The tool could not be started.
    NotRunnable,
    /// The tool ran and reported failure.
    Failed,
    /// The tool ran and reported success.
    Succeeded,
}

/// Why the local environment cannot serve jobs.
#[derive(Debug, Clone, Copy, PartialEq, Eq, Structural)]
pub enum EnvironmentError {
    CudaNotRunnable,
    CudaCheckFailed,
    DockerNotRunnable,
    DockerCheckFailed,
}

/// Judges the local runtime (GPU driver tools, container daemon).
#[derive(Debug, Clone, Copy)]
pub struct RuntimeChecker;

impl RuntimeChecker {
    pub fn new() -> (r: RuntimeChecker) {
        RuntimeChecker
    }

    /// The environment is usable when both probes succeeded; the GPU probe's
    /// failure is reported first.
    pub fn check_environment(&self, cuda: ProbeStatus, docker: ProbeStatus) -> (r: Result<(), EnvironmentError>)
        ensures
            cuda == ProbeStatus::NotRunnable ==> r == Err::<(), EnvironmentError>(EnvironmentError::CudaNotRunnable),
            cuda == ProbeStatus::Failed ==> r == Err::<(), EnvironmentError>(EnvironmentError::CudaCheckFailed),
            cuda == ProbeStatus::Succeeded ==> r == match docker {
                ProbeStatus::NotRunnable => Err::<(), EnvironmentError>(EnvironmentError::DockerNotRunnable),
                ProbeStatus::Failed => Err(EnvironmentError::DockerCheckFailed),
                ProbeStatus::Succeeded => Ok(()),
            },
    {
        self.check_cuda(cuda)?;
        self.check_docker(docker)?;
        Ok(())
    }

    fn check_cuda(&self, status: ProbeStatus) -> (r: Result<(), EnvironmentError>)
        ensures
            r == match status {
                ProbeStatus::NotRunnable => Err::<(), EnvironmentError>(EnvironmentError::CudaNotRunnable),
                ProbeStatus::Failed => Err(EnvironmentError::CudaCheckFailed),
                ProbeStatus::Succeeded => Ok(()),
            },
    {
        match status {
            ProbeStatus::NotRunnable => Err(EnvironmentError::CudaNotRunnable),
            ProbeStatus::Failed => Err(EnvironmentError::CudaCheckFailed),
            ProbeStatus::Succeeded => Ok(()),
        }
    }

    fn check_docker(&self, status: ProbeStatus) -> (r: Result<(), EnvironmentError>)
        ensures
            r == match status {
                ProbeStatus::NotRunnable => Err::<(), EnvironmentError>(EnvironmentError::DockerNotRunnable),
                ProbeStatus::Failed => Err(EnvironmentError::DockerCheckFailed),
                ProbeStatus::Succeeded => Ok(()),
            },
    {
        match status {
            ProbeStatus::NotRunnable => Err(EnvironmentError::DockerNotRunnable),
            ProbeStatus::Failed => Err(EnvironmentError::DockerCheckFailed),
            ProbeStatus::Succeeded => Ok(()),
        }
    }
}

} // verus!
