//! Configuration records: servers, ECR registries and SSO profiles.
//!
//! The YAML file is read and parsed at the program's edge; this module holds
//! the records it yields and the errors that reading and parsing report.

use crate::error::{error_value, StoolError, StoolErrorType};
use vstd::prelude::*;
use vstd::string::*;

verus! {

/// Server connection configuration.
#[derive(Debug, Clone)]
pub struct Server {
    pub name: String,
    pub ip: String,
    pub user: String,
    pub password: Option<String>,
    pub key_path: Option<String>,
}

/// ECR registry configuration.
#[derive(Debug, Clone)]
pub struct EcrRegistry {
    pub name: String,
    pub account_id: String,
    pub region: String,
    /// Docker image names offered for this registry (may be empty).
    pub images: Vec<String>,
    /// AWS profile whose SSO session the registry login goes through.
    pub sso_profile: Option<String>,
}

/// AWS SSO profile configuration.
#[derive(Debug, Clone)]
pub struct SsoConfig {
    pub profile_name: String,
    pub sso_session_name: String,
    pub start_url: String,
    pub region: String,
    pub sso_account_id: String,
    pub sso_role_name: String,
    pub output_format: String,
}

/// Everything the configuration file holds.
#[derive(Debug)]
pub struct Config {
    pub servers: Vec<Server>,
    pub ecr_registries: Vec<EcrRegistry>,
    pub sso_configs: Vec<SsoConfig>,
}

/// The mathematical value of an [`SsoConfig`]: the text of each field.
pub struct SsoConfigView {
    pub profile_name: Seq<char>,
    pub sso_session_name: Seq<char>,
    pub start_url: Seq<char>,
    pub region: Seq<char>,
    pub sso_account_id: Seq<char>,
    pub sso_role_name: Seq<char>,
    pub output_format: Seq<char>,
}

impl View for SsoConfig {
    type V = SsoConfigView;

    open spec fn view(&self) -> SsoConfigView {
        SsoConfigView {
            profile_name: self.profile_name@,
            sso_session_name: self.sso_session_name@,
            start_url: self.start_url@,
            region: self.region@,
            sso_account_id: self.sso_account_id@,
            sso_role_name: self.sso_role_name@,
            output_format: self.output_format@,
        }
    }
}

impl SsoConfig {
    /// A copy of this SSO profile.
    pub fn duplicate(&self) -> (res: SsoConfig)
        ensures
            res.same_as(self),
    {
        SsoConfig {
            profile_name: self.profile_name.clone(),
            sso_session_name: self.sso_session_name.clone(),
            start_url: self.start_url.clone(),
            region: self.region.clone(),
            sso_account_id: self.sso_account_id.clone(),
            sso_role_name: self.sso_role_name.clone(),
            output_format: self.output_format.clone(),
        }
    }

    /// Whether two profiles hold the same text in every field.
    pub open spec fn same_as(&self, other: &SsoConfig) -> bool {
        &&& self.profile_name@ == other.profile_name@
        &&& self.sso_session_name@ == other.sso_session_name@
        &&& self.start_url@ == other.start_url@
        &&& self.region@ == other.region@
        &&& self.sso_account_id@ == other.sso_account_id@
        &&& self.sso_role_name@ == other.sso_role_name@
        &&& self.output_format@ == other.output_format@
    }
}

/// A copy of an optional string.
pub fn clone_opt(o: &Option<String>) -> (res: Option<String>)
    ensures
        crate::text::opt_view(res) == crate::text::opt_view(*o),
{
    match o {
        Some(s) => Some(s.clone()),
        None => None,
    }
}

impl Config {
    /// The error reported when the configuration file at `path` cannot be read;
    /// `source` is the text of the I/O error.
    pub fn read_failure(path: &str, source: &str) -> (e: StoolError)
        ensures
            e@ == error_value(
                StoolErrorType::ConfigLoadFailed,
                Some("Failed to read config file: "@ + path@),
                Some(source@),
            ),
    {
        let mut m = String::from_str("Failed to read config file: ");
        m.append(path);
        StoolError::new(StoolErrorType::ConfigLoadFailed).with_message(m.as_str()).with_source(
            source,
        )
    }

    /// The error reported when a configuration file is not valid YAML for
    /// a [`Config`]; `source` is the text of the parser's error.
    pub fn parse_failure(source: &str) -> (e: StoolError)
        ensures
            e@ == error_value(
                StoolErrorType::YamlParseError,
                Some("Failed to parse YAML config"@),
                Some(source@),
            ),
    {
        StoolError::new(StoolErrorType::YamlParseError).with_message(
            "Failed to parse YAML config",
        ).with_source(source)
    }

    /// The error reported when the configuration built into the program is
    /// not valid YAML for a [`Config`].
    pub fn embedded_parse_failure(source: &str) -> (e: StoolError)
        ensures
            e@ == error_value(
                StoolErrorType::YamlParseError,
                Some("Failed to parse embedded YAML config"@),
                Some(source@),
            ),
    {
        StoolError::new(StoolErrorType::YamlParseError).with_message(
            "Failed to parse embedded YAML config",
        ).with_source(source)
    }
}

} // verus!
