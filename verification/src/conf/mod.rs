//! The configuration of the proxy.
//!
//! The configuration is read from a file on top of the defaults that
//! `config_defaults` lists; reading the file is done by the program.

use vstd::prelude::*;

pub mod subnet_conf;
pub mod credential_conf;
pub mod proxy_pass_location_conf;
pub mod secure_conf;
pub mod client_conf;
pub mod server_conf;
pub mod tunnal_conf;

verus! {

/// The whole configuration.
pub struct AppConf {
    pub hostnets: Vec<subnet_conf::SubnetConf>,
    pub log_cfg_file: String,
    pub client: client_conf::ClientConf,
    pub servers: Vec<server_conf::ServerConf>,
    pub secure: secure_conf::SecureConf,
    pub tunnal: tunnal_conf::TunnalConf,
    pub credentials: Vec<credential_conf::CredentialConf>,
    pub proxy_pass_locations: Vec<proxy_pass_location_conf::ProxyPassLocationConf>,
}

/// A default value of a configuration key.
pub enum ConfigDefault {
    Text(String),
    Integer(i64),
    Flag(bool),
}

/// `e` gives the key `key` the text `value`.
pub open spec fn is_text_default(e: (String, ConfigDefault), key: Seq<char>, value: Seq<char>) -> bool {
    &&& e.0@ == key
    &&& (e.1 matches ConfigDefault::Text(t) && t@ == value)
}

/// The defaults that the configuration file is read on top of: a logger
/// configuration file, the local host as the only host network, a client
/// subject name, and one plain HTTP server `local` on `127.0.0.1:8999`
/// with the realm `wallout`.
pub fn config_defaults() -> (res: Vec<(String, ConfigDefault)>)
    ensures
        res@.len() == 9,
        is_text_default(res@[0], "log_cfg_file"@, "config/log.yaml"@),
        is_text_default(res@[1], "hostnets[0].exp"@, "127.0.0.1"@),
        is_text_default(res@[2], "hostnets[0].typ"@, "ip"@),
        is_text_default(res@[3], "client.subject_alt_name"@, "noname"@),
        is_text_default(res@[4], "servers[0].id"@, "local"@),
        is_text_default(res@[5], "servers[0].host"@, "127.0.0.1"@),
        res@[6].0@ == "servers[0].port"@ && res@[6].1 == ConfigDefault::Integer(8999),
        is_text_default(res@[7], "servers[0].realm"@, "wallout"@),
        res@[8].0@ == "servers[0].on_https"@ && res@[8].1 == ConfigDefault::Flag(false),
{
    let mut res: Vec<(String, ConfigDefault)> = Vec::new();
    res.push(("log_cfg_file".to_string(), ConfigDefault::Text("config/log.yaml".to_string())));
    res.push(("hostnets[0].exp".to_string(), ConfigDefault::Text("127.0.0.1".to_string())));
    res.push(("hostnets[0].typ".to_string(), ConfigDefault::Text("ip".to_string())));
    res.push(("client.subject_alt_name".to_string(), ConfigDefault::Text("noname".to_string())));
    res.push(("servers[0].id".to_string(), ConfigDefault::Text("local".to_string())));
    res.push(("servers[0].host".to_string(), ConfigDefault::Text("127.0.0.1".to_string())));
    res.push(("servers[0].port".to_string(), ConfigDefault::Integer(8999)));
    res.push(("servers[0].realm".to_string(), ConfigDefault::Text("wallout".to_string())));
    res.push(("servers[0].on_https".to_string(), ConfigDefault::Flag(false)));
    res
}

} // verus!
