use vstd::prelude::*;
use crate::text::same_text;

verus! {

/// The deployment the application runs in; it picks the configuration file
/// read after the base one.
#[derive(Clone, Copy, Debug, PartialEq, Eq, Structural)]
pub enum Environment {
    Local,
    Dev,
    Prod,
}

/// The message of an environment name that is not known.
pub open spec fn unknown_environment_message(value: Seq<char>) -> Seq<char> {
    "no such Environment supported: "@ + value
}

/// The three environment names are distinct.
proof fn lemma_environment_names_differ()
    ensures
        "local"@ != "dev"@,
        "local"@ != "prod"@,
        "dev"@ != "prod"@,
{
    reveal_strlit("local");
    reveal_strlit("dev");
    reveal_strlit("prod");
    assert("local"@.len() == 5);
    assert("dev"@.len() == 3);
    assert("prod"@.len() == 4);
}

impl Environment {
    /// The name of the environment, which is also the stem of its
    /// configuration file.
    pub fn as_str(&self) -> (r: &'static str)
        ensures
            *self == Environment::Local ==> r@ == "local"@,
            *self == Environment::Dev ==> r@ == "dev"@,
            *self == Environment::Prod ==> r@ == "prod"@,
    {
        match self {
            Environment::Local => "local",
            Environment::Dev => "dev",
            Environment::Prod => "prod",
        }
    }

    /// Reads an environment from its name.
    pub fn parse(value: &str) -> (r: Result<Environment, String>)
        ensures
            value@ == "local"@ ==> r == Ok::<Environment, String>(Environment::Local),
            value@ == "dev"@ ==> r == Ok::<Environment, String>(Environment::Dev),
            value@ == "prod"@ ==> r == Ok::<Environment, String>(Environment::Prod),
            r is Err <==> value@ != "local"@ && value@ != "dev"@ && value@ != "prod"@,
            r matches Err(msg) ==> msg@ == unknown_environment_message(value@),
    {
        proof {
            lemma_environment_names_differ();
        }
        if same_text(value, "local") {
            Ok(Environment::Local)
        } else if same_text(value, "dev") {
            Ok(Environment::Dev)
        } else if same_text(value, "prod") {
            Ok(Environment::Prod)
        } else {
            let mut msg = "no such Environment supported: ".to_owned();
            msg.append(value);
            Err(msg)
        }
    }
}

impl TryFrom<String> for Environment {
    type Error = String;

    fn try_from(value: String) -> (r: Result<Self, Self::Error>)
        ensures
            value@ == "local"@ ==> r == Ok::<Environment, String>(Environment::Local),
            value@ == "dev"@ ==> r == Ok::<Environment, String>(Environment::Dev),
            value@ == "prod"@ ==> r == Ok::<Environment, String>(Environment::Prod),
            r is Err <==> value@ != "local"@ && value@ != "dev"@ && value@ != "prod"@,
            r matches Err(msg) ==> msg@ == unknown_environment_message(value@),
    {
        proof {
            lemma_environment_names_differ();
        }
        Environment::parse(value.as_str())
    }
}

impl vstd::std_specs::convert::TryFromSpecImpl<String> for Environment {
    open spec fn obeys_try_from_spec() -> bool {
        false
    }

    open spec fn try_from_spec(value: String) -> Result<Self, Self::Error> {
        arbitrary()
    }
}

/// The wire protocol spoken to the key-value store.
#[derive(Clone, Copy, Debug, PartialEq, Eq, Structural)]
pub enum RedisProtocol {
    Resp2,
    Resp3,
}

/// Reads a protocol version: `2`, `v2` or `resp2`; `3`, `v3` or `resp3`.
pub fn redis_protocol_from_str(value: &str) -> (r: Option<RedisProtocol>)
    ensures
        r == Some(RedisProtocol::Resp2) <==> (value@ == "2"@ || value@ == "v2"@ || value@ == "resp2"@),
        r == Some(RedisProtocol::Resp3) <==> (value@ == "3"@ || value@ == "v3"@ || value@ == "resp3"@)
            && !(value@ == "2"@ || value@ == "v2"@ || value@ == "resp2"@),
        r is None <==> !(value@ == "2"@ || value@ == "v2"@ || value@ == "resp2"@) && !(value@
            == "3"@ || value@ == "v3"@ || value@ == "resp3"@),
{
    if same_text(value, "2") || same_text(value, "v2") || same_text(value, "resp2") {
        Some(RedisProtocol::Resp2)
    } else if same_text(value, "3") || same_text(value, "v3") || same_text(value, "resp3") {
        Some(RedisProtocol::Resp3)
    } else {
        None
    }
}

/// How often the log file starts over.
#[derive(Clone, Copy, Debug, PartialEq, Eq, Structural)]
pub enum LogRotation {
    Minutely,
    Hourly,
    Daily,
    Never,
}

/// Reads a rotation period: `minutely`, `hourly`, `daily` or `never`.
pub fn log_rotation_from_str(value: &str) -> (r: Option<LogRotation>)
    ensures
        value@ == "minutely"@ ==> r == Some(LogRotation::Minutely),
        value@ == "hourly"@ && value@ != "minutely"@ ==> r == Some(LogRotation::Hourly),
        value@ == "daily"@ && value@ != "minutely"@ && value@ != "hourly"@ ==> r == Some(
            LogRotation::Daily,
        ),
        value@ == "never"@ && value@ != "minutely"@ && value@ != "hourly"@ && value@ != "daily"@
            ==> r == Some(LogRotation::Never),
        r is None <==> value@ != "minutely"@ && value@ != "hourly"@ && value@ != "daily"@ && value@
            != "never"@,
{
    if same_text(value, "minutely") {
        Some(LogRotation::Minutely)
    } else if same_text(value, "hourly") {
        Some(LogRotation::Hourly)
    } else if same_text(value, "daily") {
        Some(LogRotation::Daily)
    } else if same_text(value, "never") {
        Some(LogRotation::Never)
    } else {
        None
    }
}

/// Settings of logging to the standard output.
#[derive(Clone, Copy, Debug, PartialEq, Eq, Structural)]
pub struct StdoutLoggingSettings {
    pub enable: bool,
}

} // verus!
