use wallout::conf::client_conf::ClientConf;
use wallout::conf::server_conf::ServerConf;
use wallout::conf::tunnal_conf::superior_conf::SuperiorConf;
use wallout::conf::tunnal_conf::TunnalConf;
use wallout::conf::{config_defaults, ConfigDefault};
use wallout::error::AppError;
use wallout::uri::UriParts;

fn server(host: &str, port: u32, ext: Option<&str>) -> ServerConf {
    ServerConf {
        id: "local".to_string(),
        host: host.to_string(),
        port,
        realm: "wallout".to_string(),
        on_https: false,
        certfile: "data/server.crt".to_string(),
        keyfile: "data/server.key".to_string(),
        superior_id: None,
        external_host_name: ext.map(|s| s.to_string()),
    }
}

fn config_message(e: AppError) -> String {
    match e {
        AppError::ConfigError(m) => m,
        _ => panic!("not a configuration error"),
    }
}

fn superior(id: &str) -> SuperiorConf {
    SuperiorConf {
        id: id.to_string(),
        uri: UriParts { text: "/".to_string(), scheme: None, host: None, port: None, path: "/".to_string(), query: None },
        username: None,
        password: None,
    }
}

#[test]
fn server_address_is_host_and_port() {
    assert_eq!(server("127.0.0.1", 8999, None).get_address().ok(), Some("127.0.0.1:8999".to_string()));
    assert_eq!(server("0.0.0.0", 65535, None).get_address().ok(), Some("0.0.0.0:65535".to_string()));
    assert_eq!(server("[::1]", 443, None).get_address().ok(), Some("[::1]:443".to_string()));
}

#[test]
fn host_names_are_not_socket_addresses() {
    for host in ["h", "localhost", "01.2.3.4", "256.0.0.1", "1.2.3", "1.2.3.4:5", "::1", "[1::2::3]"] {
        let e = server(host, 8999, None).get_address().err().unwrap();
        assert_eq!(config_message(e), "AddrParseError(Socket)");
    }
}

#[test]
fn invalid_server_address_is_refused() {
    for s in [server("", 80, None), server("127.0.0.1", 0, None), server("127.0.0.1", 65536, None)] {
        let e = s.get_address().err().unwrap();
        assert_eq!(config_message(e), "Invalid server configuration");
    }
}

#[test]
fn external_address_defaults_to_localhost() {
    assert_eq!(server("127.0.0.1", 8999, None).get_external_address(), "localhost:8999");
    assert_eq!(server("127.0.0.1", 443, Some("proxy.example.com")).get_external_address(), "proxy.example.com:443");
}

#[test]
fn server_identity_must_be_present() {
    assert!(ServerConf::require_certificates(1).is_ok());
    assert_eq!(config_message(ServerConf::require_certificates(0).err().unwrap()), "No certificates");
    assert!(ServerConf::require_private_keys(2).is_ok());
    assert_eq!(config_message(ServerConf::require_private_keys(0).err().unwrap()), "No private keys");
}

#[test]
fn alpn_prefers_http2() {
    assert_eq!(ServerConf::alpn_protocols(), vec![b"h2".to_vec(), b"http/1.1".to_vec()]);
}

#[test]
fn client_identity_files_and_defaults() {
    let mut c = ClientConf {
        subject_alt_name: "noname".to_string(),
        certfile: None,
        keyfile: None,
        trusted_cerfiles: vec![],
    };
    assert_eq!(c.identity_files(), ("data/client.crt".to_string(), "data/client.key".to_string()));
    c.certfile = Some("my.crt".to_string());
    let p = c.identity_plan(true);
    assert_eq!((p.certfile.as_str(), p.keyfile.as_str(), p.generate), ("my.crt", "data/client.key", false));
    let p = c.identity_plan(false);
    assert_eq!((p.certfile.as_str(), p.keyfile.as_str(), p.generate), ("temp/client.crt", "temp/client.key", true));
}

#[test]
fn client_identity_must_be_present() {
    assert!(ClientConf::require_certificates("a.crt", 1).is_ok());
    assert_eq!(config_message(ClientConf::require_certificates("a.crt", 0).err().unwrap()), "No certificates a.crt");
    assert!(ClientConf::require_private_keys("a.key", 3).is_ok());
    assert_eq!(config_message(ClientConf::require_private_keys("a.key", 0).err().unwrap()), "No private keys: a.key");
}

#[test]
fn configuration_defaults() {
    let d = config_defaults();
    let keys: Vec<&str> = d.iter().map(|(k, _)| k.as_str()).collect();
    assert_eq!(keys, vec![
        "log_cfg_file",
        "hostnets[0].exp",
        "hostnets[0].typ",
        "client.subject_alt_name",
        "servers[0].id",
        "servers[0].host",
        "servers[0].port",
        "servers[0].realm",
        "servers[0].on_https",
    ]);
    assert!(matches!(&d[0].1, ConfigDefault::Text(t) if t == "config/log.yaml"));
    assert!(matches!(&d[6].1, ConfigDefault::Integer(8999)));
    assert!(matches!(&d[7].1, ConfigDefault::Text(t) if t == "wallout"));
    assert!(matches!(&d[8].1, ConfigDefault::Flag(false)));
}

#[test]
fn superior_is_found_by_identifier() {
    let t = TunnalConf { superiors: vec![superior("a"), superior("b"), superior("b")] };
    assert_eq!(t.find_superior(&"b".to_string()), Some(1));
    assert_eq!(t.find_superior(&"a".to_string()), Some(0));
    assert_eq!(t.find_superior(&"c".to_string()), None);
}
