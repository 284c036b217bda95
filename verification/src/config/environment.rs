use vstd::prelude::*;
use vstd::string::StringExecFns;

verus! {

/// The surroundings the service runs in; each has a settings file of its
/// own, named after it.
#[derive(Clone, Copy, Debug, PartialEq, Eq, Structural)]
pub enum Environment {
    Local,
    Production,
}

impl Environment {
    /// The name of the environment, as it is written in settings.
    pub open spec fn name(self) -> Seq<char> {
        match self {
            Environment::Local => "local"@,
            Environment::Production => "production"@,
        }
    }

    /// The name of the environment.
    pub fn as_str(&self) -> (name: &'static str)
        ensures
            name@ == self.name(),
    {
        match self {
            Environment::Local => "local",
            Environment::Production => "production",
        }
    }

    /// The environment with this name, written exactly; `None` for any
    /// other text.
    pub fn parse(name: &String) -> (parsed: Option<Environment>)
        ensures
            match parsed {
                Some(environment) => name@ == environment.name(),
                None => name@ != Environment::Local.name() && name@
                    != Environment::Production.name(),
            },
    {
        if *name == String::from_str("local") {
            Some(Environment::Local)
        } else if *name == String::from_str("production") {
            Some(Environment::Production)
        } else {
            None
        }
    }
}

} // verus!
