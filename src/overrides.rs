//! Requests and responses of the configuration-override bridge, and the
//! decisions that turn the parser's and the processor's results into a
//! response. Parsing and applying overrides are done by the caller.
use vstd::prelude::*;

verus! {

#[derive(PartialEq, Eq, Structural, Clone, Copy, Debug)]
pub enum OverrideFormat {
    Yaml,
    Javascript,
}

/// One override to apply on top of a configuration.
pub struct OverrideConfig {
    pub id: String,
    pub name: String,
    pub format: OverrideFormat,
    pub content: String,
}

pub struct ApplyOverridesRequest {
    pub base_config_content: String,
    pub overrides: Vec<OverrideConfig>,
}

pub struct ApplyOverridesResponse {
    pub success: bool,
    pub result_config: String,
    pub error_message: String,
    pub logs: Vec<String>,
}

pub struct ParseSubscriptionRequest {
    pub content: String,
}

pub struct ParseSubscriptionResponse {
    pub success: bool,
    pub parsed_config: String,
    pub error_message: String,
}

pub struct DownloadOverrideResponse {
    pub success: bool,
    pub content: String,
    pub error_message: Option<String>,
}

/// What applying overrides needs next.
pub enum OverrideStep {
    /// Apply `overrides` to the parsed configuration `config`.
    Apply { config: String, overrides: Vec<OverrideConfig> },
    /// Nothing to apply: send this response.
    Respond(ApplyOverridesResponse),
}

fn failed_apply(message: String) -> (r: ApplyOverridesResponse)
    ensures
        !r.success,
        r.result_config@ == Seq::<char>::empty(),
        r.error_message@ == message@,
        r.logs@.len() == 0,
{
    ApplyOverridesResponse {
        success: false,
        result_config: String::new(),
        error_message: message,
        logs: Vec::new(),
    }
}

impl ApplyOverridesRequest {
    /// Decides, from whether the override processor could be set up and from
    /// the parse of the base subscription, whether there is anything to apply.
    /// A processor failure is reported before a parse failure.
    pub fn handle(self, processor: Result<(), String>, parsed: Result<String, String>) -> (r:
        OverrideStep)
        ensures
            processor is Err ==> r is Respond && !r->Respond_0.success
                && r->Respond_0.error_message@ == "failed to set up the override processor: "@
                + processor->Err_0@ && r->Respond_0.result_config@.len() == 0
                && r->Respond_0.logs@.len() == 0,
            processor is Ok && parsed is Err ==> r is Respond && !r->Respond_0.success
                && r->Respond_0.error_message@ == "failed to parse the subscription: "@
                + parsed->Err_0@ && r->Respond_0.result_config@.len() == 0
                && r->Respond_0.logs@.len() == 0,
            processor is Ok && parsed is Ok ==> r == (OverrideStep::Apply {
                config: parsed->Ok_0,
                overrides: self.overrides,
            }),
    {
        match processor {
            Err(e) => OverrideStep::Respond(
                failed_apply(
                    String::from_str("failed to set up the override processor: ").concat(
                        e.as_str(),
                    ),
                ),
            ),
            Ok(()) => match parsed {
                Err(e) => OverrideStep::Respond(
                    failed_apply(
                        String::from_str("failed to parse the subscription: ").concat(e.as_str()),
                    ),
                ),
                Ok(config) => OverrideStep::Apply { config, overrides: self.overrides },
            },
        }
    }
}

impl ApplyOverridesResponse {
    /// The response to the result of applying the overrides.
    pub fn from_applied(applied: Result<String, String>) -> (r: ApplyOverridesResponse)
        ensures
            r.success == applied is Ok,
            applied is Ok ==> r.result_config == applied->Ok_0 && r.error_message@.len() == 0
                && r.logs@.len() == 1 && r.logs@[0]@ == "overrides applied"@,
            applied is Err ==> r.result_config@.len() == 0 && r.error_message == applied->Err_0
                && r.logs@.len() == 0,
    {
        match applied {
            Ok(config) => {
                let mut logs: Vec<String> = Vec::new();
                logs.push(String::from_str("overrides applied"));
                ApplyOverridesResponse {
                    success: true,
                    result_config: config,
                    error_message: String::new(),
                    logs,
                }
            },
            Err(e) => ApplyOverridesResponse {
                success: false,
                result_config: String::new(),
                error_message: e,
                logs: Vec::new(),
            },
        }
    }
}

impl ParseSubscriptionRequest {
    /// The response to the parse of this request's content.
    pub fn handle(self, parsed: Result<String, String>) -> (r: ParseSubscriptionResponse)
        ensures
            r.success == parsed is Ok,
            parsed is Ok ==> r.parsed_config == parsed->Ok_0 && r.error_message@.len() == 0,
            parsed is Err ==> r.parsed_config@.len() == 0 && r.error_message == parsed->Err_0,
    {
        match parsed {
            Ok(parsed_config) => ParseSubscriptionResponse {
                success: true,
                parsed_config,
                error_message: String::new(),
            },
            Err(e) => ParseSubscriptionResponse {
                success: false,
                parsed_config: String::new(),
                error_message: e,
            },
        }
    }
}

impl DownloadOverrideResponse {
    /// The response to a download that gave `downloaded`.
    pub fn from_download(downloaded: Result<String, String>) -> (r: DownloadOverrideResponse)
        ensures
            r.success == downloaded is Ok,
            downloaded is Ok ==> r.content == downloaded->Ok_0 && r.error_message is None,
            downloaded is Err ==> r.content@.len() == 0 && r.error_message == Some(
                downloaded->Err_0,
            ),
    {
        match downloaded {
            Ok(content) => DownloadOverrideResponse { success: true, content, error_message: None },
            Err(e) => DownloadOverrideResponse {
                success: false,
                content: String::new(),
                error_message: Some(e),
            },
        }
    }
}

} // verus!
