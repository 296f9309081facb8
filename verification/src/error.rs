//! Why a job failed, and at which stage.

use vstd::prelude::*;
use vstd::string::StringExecFns;

verus! {

/// The part of the job in which a failure arose.
#[derive(Clone, Copy, Debug, PartialEq, Eq, Structural)]
pub enum Stage {
    Configuration,
    Generation,
    Dispatch,
}

/// A required setting that neither a flag nor the environment supplied.
#[derive(Clone, Copy, Debug, PartialEq, Eq, Structural)]
pub enum MissingSetting {
    Credential,
    WebhookUrl,
}

/// How an outbound call broke down before any answer could be judged.
#[derive(Clone, Copy, Debug, PartialEq, Eq, Structural)]
pub enum TransportFailure {
    /// The request could not be sent or the connection failed.
    Network,
    /// The call was abandoned when its time bound ran out.
    Timeout,
}

/// What went wrong between the job and the completion endpoint.
#[derive(Clone, Copy, Debug, PartialEq, Eq, Structural)]
pub enum GenerationFailure {
    Network,
    Timeout,
    /// An answer came, but not in the expected shape.
    Unparseable,
}

/// What went wrong between the job and the webhook.
#[derive(Clone, Copy, Debug, PartialEq, Eq, Structural)]
pub enum DispatchFailure {
    Network,
    Timeout,
    /// The webhook answered with a status outside the success class.
    Status(u16),
}

/// Every way a job can fail. All of them are final: nothing is retried.
#[derive(Clone, Copy, Debug, PartialEq, Eq, Structural)]
pub enum JobError {
    Configuration(MissingSetting),
    GenerationTransport(GenerationFailure),
    /// A well-formed answer that holds no candidate at all.
    GenerationContent,
    DispatchTransport(DispatchFailure),
}

impl JobError {
    /// The stage an error belongs to.
    pub open spec fn stage_of(self) -> Stage {
        match self {
            JobError::Configuration(_) => Stage::Configuration,
            JobError::GenerationTransport(_) => Stage::Generation,
            JobError::GenerationContent => Stage::Generation,
            JobError::DispatchTransport(_) => Stage::Dispatch,
        }
    }

    /// Whether an error records a call that ran out of time.
    pub open spec fn timed_out(self) -> bool {
        self == JobError::GenerationTransport(GenerationFailure::Timeout)
            || self == JobError::DispatchTransport(DispatchFailure::Timeout)
    }

    /// The short text that tells an operator what failed. A call that could
    /// not be sent and a call that ran out of time read the same; `timed_out`
    /// tells them apart.
    pub open spec fn description(self) -> Seq<char> {
        match self {
            JobError::Configuration(MissingSetting::Credential) => "Missing API key"@,
            JobError::Configuration(MissingSetting::WebhookUrl) => "Missing webhook URL"@,
            JobError::GenerationTransport(GenerationFailure::Network) =>
                "Failed to send request to OpenAI"@,
            JobError::GenerationTransport(GenerationFailure::Timeout) =>
                "Failed to send request to OpenAI"@,
            JobError::GenerationTransport(GenerationFailure::Unparseable) =>
                "Failed to parse response from OpenAI"@,
            JobError::GenerationContent => "OpenAI returned no valid choices"@,
            JobError::DispatchTransport(DispatchFailure::Network) =>
                "Failed to send request to Slack"@,
            JobError::DispatchTransport(DispatchFailure::Timeout) =>
                "Failed to send request to Slack"@,
            JobError::DispatchTransport(DispatchFailure::Status(_)) =>
                "Slack returned an error status"@,
        }
    }

    pub fn stage(&self) -> (stage: Stage)
        ensures
            stage == self.stage_of(),
    {
        match self {
            JobError::Configuration(_) => Stage::Configuration,
            JobError::GenerationTransport(_) => Stage::Generation,
            JobError::GenerationContent => Stage::Generation,
            JobError::DispatchTransport(_) => Stage::Dispatch,
        }
    }

    pub fn is_timeout(&self) -> (yes: bool)
        ensures
            yes == self.timed_out(),
    {
        match self {
            JobError::GenerationTransport(GenerationFailure::Timeout) => true,
            JobError::DispatchTransport(DispatchFailure::Timeout) => true,
            _ => false,
        }
    }

    pub fn describe(&self) -> (text: String)
        ensures
            text@ == self.description(),
    {
        match self {
            JobError::Configuration(MissingSetting::Credential) => String::from_str(
                "Missing API key",
            ),
            JobError::Configuration(MissingSetting::WebhookUrl) => String::from_str(
                "Missing webhook URL",
            ),
            JobError::GenerationTransport(GenerationFailure::Network) => String::from_str(
                "Failed to send request to OpenAI",
            ),
            JobError::GenerationTransport(GenerationFailure::Timeout) => String::from_str(
                "Failed to send request to OpenAI",
            ),
            JobError::GenerationTransport(GenerationFailure::Unparseable) => String::from_str(
                "Failed to parse response from OpenAI",
            ),
            JobError::GenerationContent => String::from_str("OpenAI returned no valid choices"),
            JobError::DispatchTransport(DispatchFailure::Network) => String::from_str(
                "Failed to send request to Slack",
            ),
            JobError::DispatchTransport(DispatchFailure::Timeout) => String::from_str(
                "Failed to send request to Slack",
            ),
            JobError::DispatchTransport(DispatchFailure::Status(_)) => String::from_str(
                "Slack returned an error status",
            ),
        }
    }
}

} // verus!
