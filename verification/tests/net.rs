use test_with::error::ConfigError;
use test_with::net::{
    check_http_condition, check_https_condition, check_icmp_condition, check_tcp_condition,
    parse_links, Ping,
};

#[test]
fn sockets_that_accept_a_connection() {
    assert_eq!(
        check_tcp_condition("8.8.8.8:53".to_string(), &vec![true]),
        (true, String::new())
    );
    assert_eq!(
        check_tcp_condition("8.8.8.8:53".to_string(), &vec![false]),
        (false, "because fail to connect socket 8.8.8.8:53".to_string())
    );
    assert_eq!(
        check_tcp_condition("193.194.195.196:53, 8.8.8.8:53,1.1.1.1:9".to_string(), &vec![false, true, false]),
        (
            false,
            "because follow sockets can not connect\n193.194.195.196:53, 1.1.1.1:9\n".to_string()
        )
    );
    assert_eq!(
        check_tcp_condition("a:1,b:2".to_string(), &vec![]),
        (false, "because follow sockets can not connect\na:1, b:2\n".to_string())
    );
}

#[test]
fn links_are_made_of_scheme_and_entry() {
    assert_eq!(
        parse_links("http", "httpbin.org, example.com/path"),
        vec!["http://httpbin.org", "http://example.com/path"]
    );
    assert_eq!(parse_links("https", "www.rust-lang.org"), vec!["https://www.rust-lang.org"]);
}

#[test]
fn web_servers_that_respond() {
    assert_eq!(
        check_http_condition("httpbin.org".to_string(), &vec![true]),
        (true, String::new())
    );
    assert_eq!(
        check_http_condition("not.exist.com".to_string(), &vec![false]),
        (false, "because http://not.exist.com not response".to_string())
    );
    assert_eq!(
        check_https_condition("not.exist.com".to_string(), &vec![false]),
        (false, "because https://not.exist.com not response".to_string())
    );
    assert_eq!(
        check_https_condition("a.com,b.com,c.com".to_string(), &vec![false, true, false]),
        (
            false,
            "because following links not response: \nhttps://a.com\nhttps://c.com\n".to_string()
        )
    );
    assert_eq!(
        check_http_condition("a.com,b.com".to_string(), &vec![true]),
        (false, "because http://b.com not response".to_string())
    );
}

#[test]
fn addresses_that_answer() {
    assert_eq!(
        check_icmp_condition("193.194.195.196".to_string(), &vec![Ping::Answered]),
        Ok((true, String::new()))
    );
    assert_eq!(
        check_icmp_condition("193.194.195.196".to_string(), &vec![Ping::Silent]),
        Ok((false, "because ip 193.194.195.196 not response".to_string()))
    );
    assert_eq!(
        check_icmp_condition("::1, 10.0.0.1,10.0.0.2".to_string(), &vec![Ping::Silent, Ping::Answered, Ping::Silent]),
        Ok((
            false,
            "because following ip not response: \n::1, 10.0.0.2\n".to_string()
        ))
    );
    assert_eq!(
        check_icmp_condition("10.0.0.1,10.0.0.2".to_string(), &vec![Ping::Answered]),
        Ok((false, "because ip 10.0.0.2 not response".to_string()))
    );
}

#[test]
fn entry_that_is_no_address() {
    assert_eq!(
        check_icmp_condition("10.0.0.1,nowhere".to_string(), &vec![Ping::Silent, Ping::NoAddress]),
        Err(ConfigError::BadIpAddress)
    );
    assert_eq!(
        check_icmp_condition("nowhere".to_string(), &vec![Ping::NoAddress]),
        Err(ConfigError::BadIpAddress)
    );
    assert_eq!(
        check_icmp_condition("10.0.0.1".to_string(), &vec![Ping::Answered, Ping::NoAddress]),
        Ok((true, String::new()))
    );
}
