use rus_core::conf::{link_lifetime, parse_i64, server_url, RusConf, DEFAULT_LINK_LIFETIME, DEFAULT_WEB_HOST, DEFAULT_WEB_PORT};

fn vars(pairs: &[(&str, &str)]) -> Vec<(String, String)> {
    pairs.iter().map(|(name, value)| (name.to_string(), value.to_string())).collect()
}

#[test]
fn names_of_the_settings() {
    assert_eq!(RusConf::RedisUrl.name(), "RUS_REDIS_URL");
    assert_eq!(RusConf::DatabaseUrl.name(), "RUS_DATABASE_URL");
    assert_eq!(RusConf::WebPort.name(), "RUS_PORT");
    assert_eq!(RusConf::WebHost.name(), "RUS_HOST");
    assert_eq!(RusConf::LinkDaysLifeTime.name(), "RUS_LINKS_LIFETIME");
}

#[test]
fn parse_i64_reads_signed_numbers() {
    assert_eq!(parse_i64("0"), Some(0));
    assert_eq!(parse_i64("90"), Some(90));
    assert_eq!(parse_i64("+90"), Some(90));
    assert_eq!(parse_i64("-90"), Some(-90));
    assert_eq!(parse_i64("-0"), Some(0));
    assert_eq!(parse_i64("007"), Some(7));
    assert_eq!(parse_i64("9223372036854775807"), Some(i64::MAX));
    assert_eq!(parse_i64("-9223372036854775808"), Some(i64::MIN));
    assert_eq!(parse_i64("+9223372036854775807"), Some(i64::MAX));
    assert_eq!(parse_i64("0000000000000000000000000000001"), Some(1));
}

#[test]
fn parse_i64_refuses_all_else() {
    for text in [
        "", "+", "-", "--1", "+-1", "1-", " 1", "1 ", "1_000", "1.0", "0x10", "abc", "١٢",
        "9223372036854775808", "-9223372036854775809", "99999999999999999999999999999999",
        "-99999999999999999999999999999999", "12a", "a12",
    ] {
        assert_eq!(parse_i64(text), None, "{:?}", text);
    }
}

#[test]
fn parse_i64_agrees_with_std() {
    for text in ["42", "-42", "+42", "", "-", "4 2", "9223372036854775807", "9223372036854775808", "-9223372036854775808"] {
        assert_eq!(parse_i64(text), text.parse::<i64>().ok(), "{:?}", text);
    }
}

#[test]
fn get_finds_the_variable() {
    let env = vars(&[("PATH", "/bin"), ("RUS_PORT", "9000"), ("RUS_HOST", "")]);
    assert_eq!(RusConf::WebPort.get(&env), Some("9000".to_string()));
    assert_eq!(RusConf::WebHost.get(&env), Some(String::new()));
    assert_eq!(RusConf::RedisUrl.get(&env), None);
    assert_eq!(RusConf::WebPort.get(&Vec::new()), None);
}

#[test]
fn get_takes_the_first_of_two() {
    let env = vars(&[("RUS_PORT", "1"), ("RUS_PORT", "2")]);
    assert_eq!(RusConf::WebPort.get(&env), Some("1".to_string()));
}

#[test]
fn get_i64_or_falls_back_to_the_default() {
    let env = vars(&[("RUS_LINKS_LIFETIME", "30"), ("RUS_PORT", "eighty")]);
    assert_eq!(RusConf::LinkDaysLifeTime.get_i64_or(&env, 90), 30);
    assert_eq!(RusConf::WebPort.get_i64_or(&env, 8000), 8000);
    assert_eq!(RusConf::WebHost.get_i64_or(&env, -1), -1);
    assert_eq!(RusConf::LinkDaysLifeTime.get_i64_or(&Vec::new(), 90), 90);
    let negative = vars(&[("RUS_LINKS_LIFETIME", "-7")]);
    assert_eq!(RusConf::LinkDaysLifeTime.get_i64_or(&negative, 90), -7);
    let empty = vars(&[("RUS_LINKS_LIFETIME", "")]);
    assert_eq!(RusConf::LinkDaysLifeTime.get_i64_or(&empty, 90), 90);
}

#[test]
fn get_or_falls_back_to_the_default() {
    let env = vars(&[("RUS_HOST", "127.0.0.1")]);
    assert_eq!(RusConf::WebHost.get_or(&env, "0.0.0.0".to_string()), "127.0.0.1");
    assert_eq!(RusConf::WebPort.get_or(&env, "8000".to_string()), "8000");
}

#[test]
fn the_defaults() {
    assert_eq!(DEFAULT_WEB_HOST, "0.0.0.0");
    assert_eq!(DEFAULT_WEB_PORT, "8000");
    assert_eq!(DEFAULT_LINK_LIFETIME, 90);
}

#[test]
fn the_server_address_joins_host_and_port() {
    assert_eq!(server_url(&Vec::new()), "0.0.0.0:8000");
    assert_eq!(server_url(&vars(&[("RUS_HOST", "127.0.0.1")])), "127.0.0.1:8000");
    assert_eq!(server_url(&vars(&[("RUS_PORT", "9000")])), "0.0.0.0:9000");
    assert_eq!(server_url(&vars(&[("RUS_PORT", "9000"), ("RUS_HOST", "localhost")])), "localhost:9000");
}

#[test]
fn the_lifetime_of_links() {
    assert_eq!(link_lifetime(&Vec::new()).unwrap().num_seconds(), 7_776_000);
    assert_eq!(link_lifetime(&vars(&[("RUS_LINKS_LIFETIME", "1")])).unwrap().num_seconds(), 86_400);
    assert_eq!(link_lifetime(&vars(&[("RUS_LINKS_LIFETIME", "x")])).unwrap().num_seconds(), 7_776_000);
    assert!(link_lifetime(&vars(&[("RUS_LINKS_LIFETIME", "9223372036854775807")])).is_none());
}
