//! The configuration of the server.

use crate::message::{copy_text, seen};
use vstd::prelude::*;

verus! {

/// What the server is told by its environment.
#[derive(PartialEq, Eq, Debug)]
pub struct Config {
    /// The address of the recognition service.
    pub stem_url: Option<String>,
    /// The address to listen on.
    pub vonageproxy_url: Option<String>,
    /// The authorization header for clients without credentials.
    pub default_bauth: Option<String>,
}

/// A variable that the environment lacks.
#[derive(Clone, Copy, PartialEq, Eq, Structural, Debug)]
pub enum MissingVariable {
    StemUrl,
    VonageproxyUrl,
    DefaultBauth,
}

impl Config {
    /// The configuration from the values of the three variables, of which each
    /// must be there. The first that is not is reported.
    pub fn from_variables(
        stem_url: Option<String>,
        vonageproxy_url: Option<String>,
        default_bauth: Option<String>,
    ) -> (result: Result<Config, MissingVariable>)
        ensures
            match result {
                Ok(config) => {
                    &&& config.stem_url is Some && config.stem_url == stem_url
                    &&& config.vonageproxy_url is Some && config.vonageproxy_url == vonageproxy_url
                    &&& config.default_bauth is Some && config.default_bauth == default_bauth
                },
                Err(MissingVariable::StemUrl) => stem_url is None,
                Err(MissingVariable::VonageproxyUrl) => stem_url is Some && vonageproxy_url is None,
                Err(MissingVariable::DefaultBauth) => stem_url is Some && vonageproxy_url is Some
                    && default_bauth is None,
            },
    {
        if stem_url.is_none() {
            return Err(MissingVariable::StemUrl);
        }
        if vonageproxy_url.is_none() {
            return Err(MissingVariable::VonageproxyUrl);
        }
        if default_bauth.is_none() {
            return Err(MissingVariable::DefaultBauth);
        }
        Ok(Config { stem_url, vonageproxy_url, default_bauth })
    }
}

impl Clone for Config {
    fn clone(&self) -> (copy: Self)
        ensures
            seen(copy.stem_url) == seen(self.stem_url),
            seen(copy.vonageproxy_url) == seen(self.vonageproxy_url),
            seen(copy.default_bauth) == seen(self.default_bauth),
    {
        Config {
            stem_url: copy_text(&self.stem_url),
            vonageproxy_url: copy_text(&self.vonageproxy_url),
            default_bauth: copy_text(&self.default_bauth),
        }
    }
}

/// What is said of a missing variable.
pub open spec fn missing_text(missing: MissingVariable) -> Seq<char> {
    match missing {
        MissingVariable::StemUrl => "Error retreiving STEM_URL."@,
        MissingVariable::VonageproxyUrl => "Error retreiving VONAGEPROXY_URL."@,
        MissingVariable::DefaultBauth => "Error retreiving DEFAULT_BAUTH."@,
    }
}

impl MissingVariable {
    /// What is said before the server gives up.
    pub fn message(&self) -> (text: &'static str)
        ensures
            text@ == missing_text(*self),
            *self == MissingVariable::StemUrl ==> text@ == "Error retreiving STEM_URL."@,
            *self == MissingVariable::VonageproxyUrl ==> text@
                == "Error retreiving VONAGEPROXY_URL."@,
            *self == MissingVariable::DefaultBauth ==> text@ == "Error retreiving DEFAULT_BAUTH."@,
    {
        match *self {
            MissingVariable::StemUrl => "Error retreiving STEM_URL.",
            MissingVariable::VonageproxyUrl => "Error retreiving VONAGEPROXY_URL.",
            MissingVariable::DefaultBauth => "Error retreiving DEFAULT_BAUTH.",
        }
    }
}

/// What is said of a missing variable names it.
pub proof fn the_missing_variable_is_named()
    ensures
        missing_text(MissingVariable::StemUrl) == "Error retreiving "@ + "STEM_URL"@ + "."@,
        missing_text(MissingVariable::VonageproxyUrl) == "Error retreiving "@
            + "VONAGEPROXY_URL"@ + "."@,
        missing_text(MissingVariable::DefaultBauth) == "Error retreiving "@ + "DEFAULT_BAUTH"@
            + "."@,
{
    reveal_strlit("Error retreiving ");
    reveal_strlit(".");
    reveal_strlit("STEM_URL");
    reveal_strlit("VONAGEPROXY_URL");
    reveal_strlit("DEFAULT_BAUTH");
    reveal_strlit("Error retreiving STEM_URL.");
    reveal_strlit("Error retreiving VONAGEPROXY_URL.");
    reveal_strlit("Error retreiving DEFAULT_BAUTH.");
}

} // verus!
