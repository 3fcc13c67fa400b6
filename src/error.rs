//! Why a configuration is rejected.
use vstd::prelude::*;
use crate::text::concat;

verus! {

/// Why a subscription description or a generated document was rejected.
#[derive(Clone, Debug)]
pub enum ConfigError {
    InvalidSubscriptionUrl(String),
    ProxyGroupGenerationFailed(String),
    RuleProcessingFailed(String),
    ConfigValidationFailed(String),
}

/// A rejection with its detail as a character sequence.
pub enum ConfigErrorView {
    InvalidSubscriptionUrl(Seq<char>),
    ProxyGroupGenerationFailed(Seq<char>),
    RuleProcessingFailed(Seq<char>),
    ConfigValidationFailed(Seq<char>),
}

impl DeepView for ConfigError {
    type V = ConfigErrorView;

    open spec fn deep_view(&self) -> ConfigErrorView {
        match self {
            ConfigError::InvalidSubscriptionUrl(m) => ConfigErrorView::InvalidSubscriptionUrl(m@),
            ConfigError::ProxyGroupGenerationFailed(m) => ConfigErrorView::ProxyGroupGenerationFailed(
                m@,
            ),
            ConfigError::RuleProcessingFailed(m) => ConfigErrorView::RuleProcessingFailed(m@),
            ConfigError::ConfigValidationFailed(m) => ConfigErrorView::ConfigValidationFailed(m@),
        }
    }
}

/// The message that describes a rejection to a person.
pub open spec fn error_message(e: ConfigErrorView) -> Seq<char> {
    match e {
        ConfigErrorView::InvalidSubscriptionUrl(m) => "Invalid subscription URL: "@ + m,
        ConfigErrorView::ProxyGroupGenerationFailed(m) => "Proxy group generation failed: "@ + m,
        ConfigErrorView::RuleProcessingFailed(m) => "Rule processing failed: "@ + m,
        ConfigErrorView::ConfigValidationFailed(m) => "Config validation failed: "@ + m,
    }
}

impl ConfigError {
    /// The machine-readable name of the kind of rejection.
    pub open spec fn spec_kind(self) -> Seq<char> {
        match self {
            ConfigError::InvalidSubscriptionUrl(_) => "invalid_subscription_url"@,
            ConfigError::ProxyGroupGenerationFailed(_) => "proxy_group_generation_failed"@,
            ConfigError::RuleProcessingFailed(_) => "rule_processing_failed"@,
            ConfigError::ConfigValidationFailed(_) => "config_validation_failed"@,
        }
    }

    /// The machine-readable name of the kind of rejection.
    pub fn kind(&self) -> (r: &'static str)
        ensures
            r@ == self.spec_kind(),
    {
        match self {
            ConfigError::InvalidSubscriptionUrl(_) => "invalid_subscription_url",
            ConfigError::ProxyGroupGenerationFailed(_) => "proxy_group_generation_failed",
            ConfigError::RuleProcessingFailed(_) => "rule_processing_failed",
            ConfigError::ConfigValidationFailed(_) => "config_validation_failed",
        }
    }

    /// Tells whether the rejection lies with the service rather than with
    /// the description it was given: only a failed region group generation.
    pub fn is_server_fault(&self) -> (r: bool)
        ensures
            r == (self is ProxyGroupGenerationFailed),
    {
        match self {
            ConfigError::ProxyGroupGenerationFailed(_) => true,
            _ => false,
        }
    }

    /// The message that describes this rejection to a person.
    pub fn message(&self) -> (r: String)
        ensures
            r@ == error_message(self.deep_view()),
    {
        match self {
            ConfigError::InvalidSubscriptionUrl(m) => concat(
                "Invalid subscription URL: ",
                m.as_str(),
            ),
            ConfigError::ProxyGroupGenerationFailed(m) => concat(
                "Proxy group generation failed: ",
                m.as_str(),
            ),
            ConfigError::RuleProcessingFailed(m) => concat("Rule processing failed: ", m.as_str()),
            ConfigError::ConfigValidationFailed(m) => concat(
                "Config validation failed: ",
                m.as_str(),
            ),
        }
    }
}

} // verus!
