//! The configuration of a run: four required values, read once at startup.

use crate::text::{split_and_trim, split_trimmed, views};
use vstd::prelude::*;

verus! {

/// The four variables that a run requires, in the order in which they are read.
#[derive(Debug, Clone, Copy, PartialEq, Eq, Structural)]
pub enum Variable {
    /// `CF_API_TOKEN`: the bearer token for the provider's API.
    ApiToken,
    /// `ZONE_ID`: the zone whose records are kept up to date.
    ZoneId,
    /// `DOMAIN`: the base domain, such as `example.com`.
    Domain,
    /// `RECORDS_NAMES`: the subdomain labels, separated by commas.
    RecordsNames,
}

/// Why no configuration could be built.
#[derive(Debug, Clone, Copy, PartialEq, Eq, Structural)]
pub enum ConfigError {
    /// The variable is not set, or set to nothing.
    Missing(Variable),
}

impl Variable {
    /// The name under which the variable is looked up.
    pub open spec fn name_text(self) -> Seq<char> {
        match self {
            Variable::ApiToken => "CF_API_TOKEN"@,
            Variable::ZoneId => "ZONE_ID"@,
            Variable::Domain => "DOMAIN"@,
            Variable::RecordsNames => "RECORDS_NAMES"@,
        }
    }

    /// The name under which the variable is looked up.
    pub fn name(self) -> (res: &'static str)
        ensures
            res@ == self.name_text(),
    {
        match self {
            Variable::ApiToken => "CF_API_TOKEN",
            Variable::ZoneId => "ZONE_ID",
            Variable::Domain => "DOMAIN",
            Variable::RecordsNames => "RECORDS_NAMES",
        }
    }
}

impl ConfigError {
    /// The variable that the error is about.
    pub open spec fn variable_of(self) -> Variable {
        match self {
            ConfigError::Missing(variable) => variable,
        }
    }

    /// The report of the error, which names the variable.
    pub open spec fn message_text(self) -> Seq<char> {
        "Environment variable "@ + self.variable_of().name_text() + " not found"@
    }

    /// The variable that the error is about.
    pub fn variable(&self) -> (res: Variable)
        ensures
            res == self.variable_of(),
    {
        match self {
            ConfigError::Missing(variable) => *variable,
        }
    }

    /// The report of the error, which names the variable.
    pub fn message(&self) -> (res: String)
        ensures
            res@ == self.message_text(),
    {
        let mut text = String::from_str("Environment variable ");
        text.append(self.variable().name());
        text.append(" not found");
        text
    }
}

/// What a variable holds, if it is set.
pub open spec fn value_of(value: Option<String>) -> Option<Seq<char>> {
    match value {
        Some(text) => Some(text@),
        None => None,
    }
}

/// Whether a variable counts as given: it is set, and not to the empty string.
pub open spec fn is_given(value: Option<Seq<char>>) -> bool {
    value matches Some(text) && text.len() > 0
}

/// The value of a required variable: the value itself where it is given, else
/// the error that names the variable.
pub open spec fn required(variable: Variable, value: Option<Seq<char>>) -> Result<
    Seq<char>,
    ConfigError,
> {
    if is_given(value) {
        Ok(value->0)
    } else {
        Err(ConfigError::Missing(variable))
    }
}

/// Requires the value of `variable`, which is `None` where the variable is not
/// set.
pub fn get_env_var(variable: Variable, value: Option<String>) -> (res: Result<String, ConfigError>)
    ensures
        match res {
            Ok(text) => required(variable, value_of(value)) == Ok::<Seq<char>, ConfigError>(text@),
            Err(error) => required(variable, value_of(value)) == Err::<Seq<char>, ConfigError>(
                error,
            ),
        },
{
    match value {
        Some(text) => {
            if text.as_str().unicode_len() > 0 {
                Ok(text)
            } else {
                Err(ConfigError::Missing(variable))
            }
        },
        None => Err(ConfigError::Missing(variable)),
    }
}

/// What a `Config` holds.
pub struct ConfigView {
    pub api_token: Seq<char>,
    pub zone_id: Seq<char>,
    pub base_domain: Seq<char>,
    pub subdomain_list: Seq<Seq<char>>,
}

impl ConfigView {
    /// No field is empty: the three texts have a character, the list an entry.
    pub open spec fn well_formed(self) -> bool {
        &&& self.api_token.len() > 0
        &&& self.zone_id.len() > 0
        &&& self.base_domain.len() > 0
        &&& self.subdomain_list.len() > 0
    }
}

/// The outcome of loading the four values: the first variable, in reading
/// order, that is not given is reported; with all four given, the subdomain
/// list is the value of `RECORDS_NAMES` split on commas, every entry trimmed,
/// in order, empty and repeated entries kept.
pub open spec fn loaded(
    api_token: Option<Seq<char>>,
    zone_id: Option<Seq<char>>,
    domain: Option<Seq<char>>,
    records_names: Option<Seq<char>>,
) -> Result<ConfigView, ConfigError> {
    if !is_given(api_token) {
        Err(ConfigError::Missing(Variable::ApiToken))
    } else if !is_given(zone_id) {
        Err(ConfigError::Missing(Variable::ZoneId))
    } else if !is_given(domain) {
        Err(ConfigError::Missing(Variable::Domain))
    } else if !is_given(records_names) {
        Err(ConfigError::Missing(Variable::RecordsNames))
    } else {
        Ok(
            ConfigView {
                api_token: api_token->0,
                zone_id: zone_id->0,
                base_domain: domain->0,
                subdomain_list: split_trimmed(records_names->0, ','),
            },
        )
    }
}

/// The configuration of a run. It is built once, by `Config::load`, and has no
/// empty field.
#[derive(Debug, PartialEq, Eq)]
pub struct Config {
    api_token: String,
    zone_id: String,
    base_domain: String,
    subdomain_list: Vec<String>,
}

impl View for Config {
    type V = ConfigView;

    closed spec fn view(&self) -> ConfigView {
        ConfigView {
            api_token: self.api_token@,
            zone_id: self.zone_id@,
            base_domain: self.base_domain@,
            subdomain_list: views(self.subdomain_list@),
        }
    }
}

impl Config {
    #[verifier::type_invariant]
    spec fn no_empty_field(self) -> bool {
        self@.well_formed()
    }

    /// Builds the configuration from the values of `CF_API_TOKEN`, `ZONE_ID`,
    /// `DOMAIN` and `RECORDS_NAMES`, each `None` where the variable is not set.
    pub fn load(
        api_token: Option<String>,
        zone_id: Option<String>,
        domain: Option<String>,
        records_names: Option<String>,
    ) -> (res: Result<Config, ConfigError>)
        ensures
            match res {
                Ok(config) => loaded(
                    value_of(api_token),
                    value_of(zone_id),
                    value_of(domain),
                    value_of(records_names),
                ) == Ok::<ConfigView, ConfigError>(config@) && config@.well_formed(),
                Err(error) => loaded(
                    value_of(api_token),
                    value_of(zone_id),
                    value_of(domain),
                    value_of(records_names),
                ) == Err::<ConfigView, ConfigError>(error),
            },
    {
        let api_token = match get_env_var(Variable::ApiToken, api_token) {
            Ok(text) => text,
            Err(error) => {
                return Err(error);
            },
        };
        let zone_id = match get_env_var(Variable::ZoneId, zone_id) {
            Ok(text) => text,
            Err(error) => {
                return Err(error);
            },
        };
        let base_domain = match get_env_var(Variable::Domain, domain) {
            Ok(text) => text,
            Err(error) => {
                return Err(error);
            },
        };
        let raw = match get_env_var(Variable::RecordsNames, records_names) {
            Ok(text) => text,
            Err(error) => {
                return Err(error);
            },
        };
        let subdomain_list = split_and_trim(raw.as_str(), ',');
        proof {
            crate::text::lemma_split_pieces(raw@, ',');
        }
        Ok(Config { api_token, zone_id, base_domain, subdomain_list })
    }

    /// The bearer token for the provider's API.
    pub fn api_token(&self) -> (res: &String)
        ensures
            res@ == self@.api_token,
            self@.well_formed(),
    {
        proof {
            use_type_invariant(self);
        }
        &self.api_token
    }

    /// The zone whose records are kept up to date.
    pub fn zone_id(&self) -> (res: &String)
        ensures
            res@ == self@.zone_id,
            self@.well_formed(),
    {
        proof {
            use_type_invariant(self);
        }
        &self.zone_id
    }

    /// The base domain.
    pub fn base_domain(&self) -> (res: &String)
        ensures
            res@ == self@.base_domain,
            self@.well_formed(),
    {
        proof {
            use_type_invariant(self);
        }
        &self.base_domain
    }

    /// The configured subdomain labels, in order.
    pub fn subdomain_list(&self) -> (res: &Vec<String>)
        ensures
            views(res@) == self@.subdomain_list,
            self@.well_formed(),
    {
        proof {
            use_type_invariant(self);
        }
        &self.subdomain_list
    }
}

} // verus!
