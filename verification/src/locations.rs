//! Where the configuration, key and certificate files live.  The base
//! directory comes from the platform; every path the library hands out
//! is that base with a fixed, stated suffix.

use vstd::prelude::*;
use crate::strutil::append_str;

verus! {

/// Relies on dirs::config_dir: the platform's configuration directory,
/// when it has one.  The value depends on the machine and the
/// environment, so nothing is stated of it.
#[verifier::external_body]
fn os_config_dir() -> Option<String> {
    dirs::config_dir().map(|p| p.to_string_lossy().to_string())
}

/// Relies on dirs::home_dir: the user's home directory, when the
/// platform reports one.  The value depends on the machine and the
/// environment, so nothing is stated of it.
#[verifier::external_body]
fn os_home_dir() -> Option<String> {
    dirs::home_dir().map(|p| p.to_string_lossy().to_string())
}

/// The directory all default paths live in: the platform's
/// configuration directory (or `.` without one) with `/remotefs`
/// appended.
pub fn config_dir() -> (r: String)
    ensures
        exists|d: Seq<char>| r@ == d + "/remotefs"@,
{
    let mut base = match os_config_dir() {
        Some(d) => d,
        None => {
            let mut s = String::new();
            append_str(&mut s, ".");
            s
        },
    };
    let ghost d = base@;
    append_str(&mut base, "/remotefs");
    proof {
        assert(base@ == d + "/remotefs"@);
    }
    base
}

/// The configuration directory with `suffix` appended.
fn in_config_dir(suffix: &str) -> (r: String)
    ensures
        exists|d: Seq<char>| r@ == d + suffix@,
{
    let mut base = config_dir();
    let ghost d = base@;
    append_str(&mut base, suffix);
    proof {
        assert(base@ == d + suffix@);
    }
    base
}

/// The default client configuration file, `client.toml` in the
/// configuration directory.
pub fn client_config_path() -> (r: String)
    ensures
        exists|d: Seq<char>| r@ == d + "/client.toml"@,
{
    in_config_dir("/client.toml")
}

/// The default agent configuration file, `agent.toml` in the
/// configuration directory.
pub fn agent_config_path() -> (r: String)
    ensures
        exists|d: Seq<char>| r@ == d + "/agent.toml"@,
{
    in_config_dir("/agent.toml")
}

/// The default relay configuration file, `relay.toml` in the
/// configuration directory.
pub fn relay_config_path() -> (r: String)
    ensures
        exists|d: Seq<char>| r@ == d + "/relay.toml"@,
{
    in_config_dir("/relay.toml")
}

/// The default client private-key file, `client.key` in the
/// configuration directory.
pub fn client_key_path() -> (r: String)
    ensures
        exists|d: Seq<char>| r@ == d + "/client.key"@,
{
    in_config_dir("/client.key")
}

/// The default client certificate file, `client.crt` in the
/// configuration directory.
pub fn client_cert_path() -> (r: String)
    ensures
        exists|d: Seq<char>| r@ == d + "/client.crt"@,
{
    in_config_dir("/client.crt")
}

/// The default agent private-key file, `agent.key` in the
/// configuration directory.
pub fn agent_key_path() -> (r: String)
    ensures
        exists|d: Seq<char>| r@ == d + "/agent.key"@,
{
    in_config_dir("/agent.key")
}

/// The default agent certificate file, `agent.crt` in the
/// configuration directory.
pub fn agent_cert_path() -> (r: String)
    ensures
        exists|d: Seq<char>| r@ == d + "/agent.crt"@,
{
    in_config_dir("/agent.crt")
}

/// The default relay private-key file, `relay.key` in the
/// configuration directory.
pub fn relay_key_path() -> (r: String)
    ensures
        exists|d: Seq<char>| r@ == d + "/relay.key"@,
{
    in_config_dir("/relay.key")
}

/// The default relay certificate file, `relay.crt` in the
/// configuration directory.
pub fn relay_cert_path() -> (r: String)
    ensures
        exists|d: Seq<char>| r@ == d + "/relay.crt"@,
{
    in_config_dir("/relay.crt")
}

/// The default agent configuration file under the user's home
/// directory (or `/tmp` without one): `<home>/.remotefs/config.toml`.
pub fn get_default_config_path() -> (r: String)
    ensures
        exists|h: Seq<char>| r@ == h + "/.remotefs/config.toml"@,
{
    let mut base = match os_home_dir() {
        Some(d) => d,
        None => {
            let mut s = String::new();
            append_str(&mut s, "/tmp");
            s
        },
    };
    let ghost h = base@;
    append_str(&mut base, "/.remotefs/config.toml");
    proof {
        assert(base@ == h + "/.remotefs/config.toml"@);
    }
    base
}

} // verus!
