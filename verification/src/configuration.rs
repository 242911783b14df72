//! Process configuration: the listening port and the default database
//! connection string, computed from the raw environment values the
//! surrounding process reads.

use vstd::prelude::*;

use crate::strutil::{parse_u32, spec_parse_u32};

verus! {

/// The server's configuration.
#[derive(Debug, PartialEq, Eq)]
pub struct Configuration {
    pub port: u32,
    pub default_database_url: Option<String>,
}

/// The mathematical model of a [`Configuration`].
#[verifier::ext_equal]
pub struct ConfigurationV {
    pub port: u32,
    pub default_database_url: Option<Seq<char>>,
}

impl DeepView for Configuration {
    type V = ConfigurationV;

    open spec fn deep_view(&self) -> ConfigurationV {
        ConfigurationV {
            port: self.port,
            default_database_url: self.default_database_url.deep_view(),
        }
    }
}

/// Computes the configuration from the raw environment values: the port
/// variable, when set, must be a decimal `u32` (an unset port defaults
/// to 3000), and the default database URL is taken as given.
pub fn get_configuration(port_raw: Option<String>, default_database_url: Option<String>) -> (r:
    Configuration)
    requires
        port_raw matches Some(s) ==> spec_parse_u32(s@) is Some,
    ensures
        r.deep_view() == (ConfigurationV {
            port: match port_raw {
                Some(s) => spec_parse_u32(s@)->Some_0,
                None => 3000u32,
            },
            default_database_url: default_database_url.deep_view(),
        }),
{
    let port: u32 = match &port_raw {
        Some(s) => parse_u32(s.as_str()).unwrap(),
        None => 3000,
    };
    Configuration { port, default_database_url }
}

} // verus!
