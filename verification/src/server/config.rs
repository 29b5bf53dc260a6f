use vstd::prelude::*;
use vstd::string::StringExecFns;

verus! {

/// The settings of the server.
#[derive(Debug, Clone, PartialEq, Eq)]
pub struct Settings {
    pub application: ApplicationSettings,
}

/// Where the server listens.
#[derive(Debug, Clone, PartialEq, Eq)]
pub struct ApplicationSettings {
    pub host: String,
    pub port: u16,
}

/// Where the server runs, which decides the settings it reads.
#[derive(Debug, Clone, Copy, PartialEq, Eq, Structural)]
pub enum Environment {
    Local,
    Production,
}

/// The text in lower case, as `str::to_lowercase` gives it.
pub uninterp spec fn spec_to_lowercase(text: Seq<char>) -> Seq<char>;

/// `str::to_lowercase`: the text with every character in its lower case, as
/// Unicode defines it. The result depends on the text alone.
#[verifier::external_body]
fn to_lowercase(text: &str) -> (lower: String)
    ensures
        lower@ == spec_to_lowercase(text@),
{
    text.to_lowercase()
}

impl Environment {
    /// The name of an environment.
    pub open spec fn spec_name(self) -> Seq<char> {
        match self {
            Environment::Local => "local"@,
            Environment::Production => "production"@,
        }
    }

    /// The environment that a name in lower case stands for, or the complaint
    /// that it stands for none.
    pub open spec fn spec_from_lowercase(lower: Seq<char>) -> Result<Environment, Seq<char>> {
        if lower == "local"@ {
            Ok(Environment::Local)
        } else if lower == "production"@ {
            Ok(Environment::Production)
        } else {
            Err(lower + " is not a valid environment"@)
        }
    }

    /// The name of this environment: "local" or "production".
    pub fn as_str(&self) -> (name: &'static str)
        ensures
            name@ == self.spec_name(),
    {
        match self {
            Environment::Local => "local",
            Environment::Production => "production",
        }
    }

    /// Reads an environment from its name, which must be in lower case:
    /// "local" or "production". Any other text comes back in the complaint.
    pub fn from_lowercase(lower: &str) -> (result: Result<Environment, String>)
        ensures
            match Environment::spec_from_lowercase(lower@) {
                Ok(environment) => result == Ok::<Environment, String>(environment),
                Err(complaint) => result is Err && result->Err_0@ == complaint,
            },
    {
        let name = lower.to_owned();
        if name == "local".to_owned() {
            Ok(Environment::Local)
        } else if name == "production".to_owned() {
            Ok(Environment::Production)
        } else {
            Err(name.concat(" is not a valid environment"))
        }
    }

    /// Reads an environment from its name in any mix of cases: the name is
    /// put into lower case and then read as `from_lowercase` reads it.
    pub fn try_from(value: String) -> (result: Result<Environment, String>)
        ensures
            match Environment::spec_from_lowercase(spec_to_lowercase(value@)) {
                Ok(environment) => result == Ok::<Environment, String>(environment),
                Err(complaint) => result is Err && result->Err_0@ == complaint,
            },
    {
        let lower = to_lowercase(value.as_str());
        Environment::from_lowercase(lower.as_str())
    }
}

} // verus!
