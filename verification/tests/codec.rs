//! Round-trip, shape and error behaviour of the JSON codec.

use gg_deploy_config::config::{
    CloudflareConfig, Config, GithubConfig, GodaddyConfig, NamecheapConfig,
};
use gg_deploy_config::errors::ConfigError;
use gg_deploy_config::parse::parse_config;
use gg_deploy_config::ser::config_to_json;

fn s(v: &str) -> Option<String> {
    Some(String::from(v))
}

#[test]
fn default_is_all_absent() {
    let c = Config::default();
    assert!(c.dns_provider.is_none());
    assert!(c.godaddy.is_none());
    assert!(c.cloudflare.is_none());
    assert!(c.namecheap.is_none());
    assert!(c.github.is_none());
}

#[test]
fn empty_config_exact_output() {
    let c = Config::default();
    let out = config_to_json(&c);
    assert_eq!(
        out,
        "{\n  \"dnsProvider\": null,\n  \"godaddy\": null,\n  \"cloudflare\": null,\n  \"namecheap\": null,\n  \"github\": null\n}"
    );
}

#[test]
fn round_trip_empty() {
    let c = Config::default();
    let out = config_to_json(&c);
    let back = parse_config(&out).unwrap();
    assert_eq!(back, Config::default());
}

#[test]
fn round_trip_full() {
    let c = Config {
        dns_provider: s("godaddy"),
        godaddy: Some(GodaddyConfig {
            api_key: s("k-1"),
            api_secret: s("sec ret"),
            environment: s("production"),
        }),
        cloudflare: Some(CloudflareConfig { api_token: s("cf-token") }),
        namecheap: Some(NamecheapConfig {
            api_user: s("user"),
            api_key: None,
            client_ip: s("203.0.113.9"),
        }),
        github: Some(GithubConfig { token: s("ghp_abc") }),
    };
    let out = config_to_json(&c);
    let back = parse_config(&out).unwrap();
    assert_eq!(back, c);
}

#[test]
fn round_trip_escaped_strings() {
    let c = Config {
        dns_provider: s("we\"ird\\pro\nvider\twith\rridic\u{8}ulous\u{c}na\u{1}me"),
        godaddy: None,
        cloudflare: Some(CloudflareConfig { api_token: s("token with \"quotes\" and \\slashes\\") }),
        namecheap: None,
        github: None,
    };
    let out = config_to_json(&c);
    let back = parse_config(&out).unwrap();
    assert_eq!(back, c);
}

#[test]
fn scenario_cloudflare_token() {
    let c = Config {
        dns_provider: s("cloudflare"),
        godaddy: None,
        cloudflare: Some(CloudflareConfig { api_token: s("tok_123") }),
        namecheap: None,
        github: None,
    };
    let out = config_to_json(&c);
    let back = parse_config(&out).unwrap();
    assert_eq!(back.dns_provider, s("cloudflare"));
    assert_eq!(back.cloudflare.as_ref().unwrap().api_token, s("tok_123"));
    assert!(back.godaddy.is_none());
    assert!(back.namecheap.is_none());
    assert!(back.github.is_none());
}

#[test]
fn empty_object_means_all_absent() {
    let back = parse_config("{}").unwrap();
    assert_eq!(back, Config::default());
}

#[test]
fn missing_fields_are_absent_not_errors() {
    let back = parse_config("{\"dnsProvider\": \"godaddy\"}").unwrap();
    assert_eq!(back.dns_provider, s("godaddy"));
    assert!(back.godaddy.is_none());
    let back = parse_config("{\"godaddy\": {\"apiKey\": \"k\"}}").unwrap();
    assert!(back.dns_provider.is_none());
    let g = back.godaddy.unwrap();
    assert_eq!(g.api_key, s("k"));
    assert!(g.api_secret.is_none());
    assert!(g.environment.is_none());
}

#[test]
fn tolerates_whitespace_and_unknown_fields() {
    let text = "  {\n\t\"extra\": [1, -2.5e3, true, null, {\"deep\": [\"x\"]}],\r\n  \"dnsProvider\": \"namecheap\" , \"alsoUnknown\": \"str\" }  ";
    let back = parse_config(text).unwrap();
    assert_eq!(back.dns_provider, s("namecheap"));
}

#[test]
fn invalid_json_is_a_parse_error() {
    for bad in [
        "",
        "{",
        "{invalid json",
        "[1, 2]",
        "null",
        "{\"dnsProvider\": }",
        "{\"dnsProvider\": \"a\",}",
        "{\"dnsProvider\": \"a\"} trailing",
        "{\"dnsProvider\": 5}",
        "{\"godaddy\": [\"not\", \"a\", \"record\"]}",
        "{\"godaddy\": {\"apiKey\": 7}}",
        "{\"dnsProvider\": \"a\", \"dnsProvider\": \"b\"}",
        "{\"dnsProvider\": \"unterminated}",
        "{\"dnsProvider\": \"bad\\escape\"}",
        "{\"dnsProvider\": \"lone\\uD800surrogate\"}",
        "{\"dnsProvider\": 01}",
    ] {
        let r = parse_config(bad);
        match r {
            Err(ConfigError::Parse(m)) => {
                assert!(m.starts_with("Failed to parse config: "));
            },
            other => panic!("expected a parse error for {:?}, got {:?}", bad, other),
        }
    }
}

#[test]
fn unicode_escapes_decode() {
    let back = parse_config("{\"dnsProvider\": \"a\\u0041\\n\\t\\\"\\\\\\/\\b\\f\\r\"}").unwrap();
    assert_eq!(back.dns_provider, s("aA\n\t\"\\/\u{8}\u{c}\r"));
}

#[test]
fn output_is_valid_json_for_serde() {
    let c = Config {
        dns_provider: s("cloudflare"),
        godaddy: Some(GodaddyConfig {
            api_key: s("with \"quotes\""),
            api_secret: None,
            environment: s("line\nbreak"),
        }),
        cloudflare: Some(CloudflareConfig { api_token: s("tok_123") }),
        namecheap: None,
        github: None,
    };
    let out = config_to_json(&c);
    let v: serde_json::Value = serde_json::from_str(&out).unwrap();
    assert_eq!(v["dnsProvider"], serde_json::Value::String(String::from("cloudflare")));
    assert_eq!(v["godaddy"]["apiKey"], serde_json::Value::String(String::from("with \"quotes\"")));
    assert_eq!(v["godaddy"]["apiSecret"], serde_json::Value::Null);
    assert_eq!(v["godaddy"]["environment"], serde_json::Value::String(String::from("line\nbreak")));
    assert_eq!(v["namecheap"], serde_json::Value::Null);
    // the pretty form serde itself would print is parsed back as well
    let pretty = serde_json::to_string_pretty(&v).unwrap();
    let back = parse_config(&pretty).unwrap();
    assert_eq!(back, c);
}
