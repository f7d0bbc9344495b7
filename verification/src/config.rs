//! What a session is told through the environment, and what is wrong with
//! it when something is.

use vstd::prelude::*;
use vstd::string::*;
use crate::text::{parse_u16, parsed_u16};

verus! {

/// The environment variables that a session reads, in the order in which
/// it asks for them.
#[derive(Clone, Copy, Debug, PartialEq, Eq, Structural)]
pub enum Variable {
    CanvasAccessToken,
    TrelloApiKey,
    TrelloApiToken,
    TrelloCanvasPort,
    PublicIp,
}

/// The name under which the environment holds `variable`.
pub open spec fn variable_name(variable: Variable) -> Seq<char> {
    match variable {
        Variable::CanvasAccessToken => "CANVAS_ACCESS_TOKEN"@,
        Variable::TrelloApiKey => "TRELLO_API_KEY"@,
        Variable::TrelloApiToken => "TRELLO_API_TOKEN"@,
        Variable::TrelloCanvasPort => "TRELLO_CANVAS_PORT"@,
        Variable::PublicIp => "PUBLIC_IP"@,
    }
}

impl Variable {
    /// The name under which the environment holds the variable.
    pub fn name(&self) -> (name: &'static str)
        ensures
            name@ == variable_name(*self),
    {
        match self {
            Variable::CanvasAccessToken => "CANVAS_ACCESS_TOKEN",
            Variable::TrelloApiKey => "TRELLO_API_KEY",
            Variable::TrelloApiToken => "TRELLO_API_TOKEN",
            Variable::TrelloCanvasPort => "TRELLO_CANVAS_PORT",
            Variable::PublicIp => "PUBLIC_IP",
        }
    }
}

/// Why the environment does not make a configuration.
#[derive(Clone, Copy, Debug, PartialEq, Eq, Structural)]
pub enum ConfigError {
    /// The variable is not set, or its value is not text.
    Missing(Variable),
    /// The port is set and is not a number from 0 to 65535.
    Port,
}

/// What is printed for `error`.
pub open spec fn error_message(error: ConfigError) -> Seq<char> {
    match error {
        ConfigError::Missing(variable) => "Failed to get `"@ + variable_name(variable)
            + "` environment variable"@,
        ConfigError::Port => "unable to parse port environment variable"@,
    }
}

impl ConfigError {
    /// The message that names what is wrong.
    pub fn message(&self) -> (message: String)
        ensures
            message@ == error_message(*self),
    {
        match self {
            ConfigError::Missing(variable) => {
                let mut message = String::from_str("Failed to get `");
                message.append(variable.name());
                message.append("` environment variable");
                message
            },
            ConfigError::Port => String::from_str("unable to parse port environment variable"),
        }
    }
}

/// The values of the five variables as the environment holds them: `None`
/// for one that is not set.
#[derive(Debug)]
pub struct Environment {
    pub canvas_access_token: Option<String>,
    pub trello_api_key: Option<String>,
    pub trello_api_token: Option<String>,
    pub trello_canvas_port: Option<String>,
    pub public_ip: Option<String>,
}

/// What an [`Environment`] is in contracts.
pub struct EnvironmentView {
    pub canvas_access_token: Option<Seq<char>>,
    pub trello_api_key: Option<Seq<char>>,
    pub trello_api_token: Option<Seq<char>>,
    pub trello_canvas_port: Option<Seq<char>>,
    pub public_ip: Option<Seq<char>>,
}

impl View for Environment {
    type V = EnvironmentView;

    open spec fn view(&self) -> EnvironmentView {
        EnvironmentView {
            canvas_access_token: self.canvas_access_token.deep_view(),
            trello_api_key: self.trello_api_key.deep_view(),
            trello_api_token: self.trello_api_token.deep_view(),
            trello_canvas_port: self.trello_canvas_port.deep_view(),
            public_ip: self.public_ip.deep_view(),
        }
    }
}

/// A complete configuration: the credentials of both services, the port
/// to listen on, and the host under which Trello reaches this process.
#[derive(Debug)]
pub struct Config {
    pub canvas_access_token: String,
    pub trello_api_key: String,
    pub trello_api_token: String,
    pub port: u16,
    pub public_ip: String,
}

/// What a [`Config`] is in contracts.
pub struct ConfigView {
    pub canvas_access_token: Seq<char>,
    pub trello_api_key: Seq<char>,
    pub trello_api_token: Seq<char>,
    pub port: u16,
    pub public_ip: Seq<char>,
}

impl View for Config {
    type V = ConfigView;

    open spec fn view(&self) -> ConfigView {
        ConfigView {
            canvas_access_token: self.canvas_access_token@,
            trello_api_key: self.trello_api_key@,
            trello_api_token: self.trello_api_token@,
            port: self.port,
            public_ip: self.public_ip@,
        }
    }
}

impl Clone for Config {
    fn clone(&self) -> (copy: Config)
        ensures
            copy == *self,
    {
        Config {
            canvas_access_token: self.canvas_access_token.clone(),
            trello_api_key: self.trello_api_key.clone(),
            trello_api_token: self.trello_api_token.clone(),
            port: self.port,
            public_ip: self.public_ip.clone(),
        }
    }
}

/// The configuration that `env` makes. The variables are looked at in the
/// order Canvas token, Trello key, Trello token, port, host; the first one
/// that is missing is the error, and a port that is set but is no port
/// number is reported before a missing host. Nothing is defaulted.
pub open spec fn config_of(env: EnvironmentView) -> Result<ConfigView, ConfigError> {
    if env.canvas_access_token is None {
        Err(ConfigError::Missing(Variable::CanvasAccessToken))
    } else if env.trello_api_key is None {
        Err(ConfigError::Missing(Variable::TrelloApiKey))
    } else if env.trello_api_token is None {
        Err(ConfigError::Missing(Variable::TrelloApiToken))
    } else if env.trello_canvas_port is None {
        Err(ConfigError::Missing(Variable::TrelloCanvasPort))
    } else if parsed_u16(env.trello_canvas_port->0) is None {
        Err(ConfigError::Port)
    } else if env.public_ip is None {
        Err(ConfigError::Missing(Variable::PublicIp))
    } else {
        Ok(
            ConfigView {
                canvas_access_token: env.canvas_access_token->0,
                trello_api_key: env.trello_api_key->0,
                trello_api_token: env.trello_api_token->0,
                port: parsed_u16(env.trello_canvas_port->0)->0,
                public_ip: env.public_ip->0,
            },
        )
    }
}

impl Config {
    /// Makes a configuration of what the environment holds, or says what
    /// is wrong with it.
    pub fn from_environment(env: Environment) -> (made: Result<Config, ConfigError>)
        ensures
            match made {
                Ok(config) => config_of(env@) == Ok::<ConfigView, ConfigError>(config@),
                Err(error) => config_of(env@) == Err::<ConfigView, ConfigError>(error),
            },
    {
        let canvas_access_token = match env.canvas_access_token {
            Some(value) => value,
            None => {
                return Err(ConfigError::Missing(Variable::CanvasAccessToken));
            },
        };
        let trello_api_key = match env.trello_api_key {
            Some(value) => value,
            None => {
                return Err(ConfigError::Missing(Variable::TrelloApiKey));
            },
        };
        let trello_api_token = match env.trello_api_token {
            Some(value) => value,
            None => {
                return Err(ConfigError::Missing(Variable::TrelloApiToken));
            },
        };
        let port_text = match env.trello_canvas_port {
            Some(value) => value,
            None => {
                return Err(ConfigError::Missing(Variable::TrelloCanvasPort));
            },
        };
        let port = match parse_u16(port_text.as_str()) {
            Some(value) => value,
            None => {
                return Err(ConfigError::Port);
            },
        };
        let public_ip = match env.public_ip {
            Some(value) => value,
            None => {
                return Err(ConfigError::Missing(Variable::PublicIp));
            },
        };
        Ok(Config { canvas_access_token, trello_api_key, trello_api_token, port, public_ip })
    }
}

} // verus!
