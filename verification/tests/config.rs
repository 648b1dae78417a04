use user_api::config::{
    get_address, get_secret, pool_settings, read_port, set_db, set_host, set_port, set_secret,
    Config, ConfigError, PoolSettings, DEFAULT_PORT,
};

fn text(s: &str) -> Option<String> {
    Some(s.to_string())
}

#[test]
fn host_is_always_the_loopback_address() {
    assert_eq!(set_host(None), "127.0.0.1");
    assert_eq!(set_host(text("127.0.0.1")), "127.0.0.1");
    assert_eq!(set_host(text("0.0.0.0")), "127.0.0.1");
    assert_eq!(set_host(text("")), "127.0.0.1");
    assert_eq!(set_host(text("example.org")), "127.0.0.1");
}

#[test]
fn port_is_read_or_defaults_to_8080() {
    assert_eq!(DEFAULT_PORT, 8080);
    assert_eq!(set_port(None), 8080);
    assert_eq!(set_port(text("3000")), 3000);
    assert_eq!(set_port(text("0")), 0);
    assert_eq!(set_port(text("65535")), 65535);
    assert_eq!(set_port(text("65536")), 8080);
    assert_eq!(set_port(text("garbage")), 8080);
    assert_eq!(set_port(text("")), 8080);
    assert_eq!(set_port(text("-1")), 8080);
    assert_eq!(set_port(text(" 80")), 8080);
    assert_eq!(set_port(text("80 ")), 8080);
    assert_eq!(set_port(text("+443")), 443);
    assert_eq!(set_port(text("0008081")), 8081);
}

#[test]
fn read_port_agrees_with_the_standard_parser() {
    let samples = [
        "", "+", "-", "++1", "+-1", "-0", "+0", "0", "00", "1", "9", "10", "99", "100", "8080",
        "65534", "65535", "65536", "65537", "99999", "100000", "4294967296", "4294967297",
        "18446744073709551616", "99999999999999999999999999", "000000000000000000000065535",
        "+65535", "+65536", "1_000", "0x10", "1e3", "1.0", " 1", "1 ", "\t1", "1\n", "١٢٣", "１２", "12a",
        "a12", "1-2", "+ 1", "−1", "655350", "6553", "065536",
    ];
    for s in samples {
        assert_eq!(read_port(s), s.parse::<u16>().ok(), "{:?}", s);
        assert_eq!(set_port(text(s)), s.parse::<u16>().unwrap_or(8080), "{:?}", s);
    }
    for n in 0..=70_000u32 {
        let s = n.to_string();
        assert_eq!(read_port(&s), s.parse::<u16>().ok());
    }
}

#[test]
fn required_values_are_handed_on() {
    assert_eq!(set_db(text("postgres://u:p@localhost/db")), "postgres://u:p@localhost/db");
    assert_eq!(set_secret(text("s3cr3t")), "s3cr3t");
    assert_eq!(set_secret(text("")), "");
}

#[test]
fn settings_are_built_from_the_four_values() {
    let config =
        Config::from_values(text("10.0.0.1"), text("9000"), text("postgres://db"), text("key"))
            .unwrap();
    assert_eq!(
        config,
        Config {
            host: "127.0.0.1".to_string(),
            port: 9000,
            database_url: "postgres://db".to_string(),
            secret: "key".to_string(),
        }
    );
    assert_eq!(get_address(&config), ("127.0.0.1".to_string(), 9000));
    assert_eq!(get_secret(&config), "key");
    let config = Config::from_values(None, None, text("postgres://db"), text("key")).unwrap();
    assert_eq!(get_address(&config), ("127.0.0.1".to_string(), 8080));
}

#[test]
fn settings_need_the_database_address_and_the_secret() {
    assert_eq!(
        Config::from_values(None, None, None, text("key")),
        Err(ConfigError::MissingDatabaseUrl)
    );
    assert_eq!(Config::from_values(None, None, None, None), Err(ConfigError::MissingDatabaseUrl));
    assert_eq!(
        Config::from_values(None, None, text("postgres://db"), None),
        Err(ConfigError::MissingSecret)
    );
}

#[test]
fn pool_keeps_between_5_and_100_connections_for_8_seconds() {
    assert_eq!(
        pool_settings(),
        PoolSettings {
            max_connections: 100,
            min_connections: 5,
            connect_timeout: 8,
            acquire_timeout: 8,
            max_lifetime: 8,
            log_statements: true,
        }
    );
}
