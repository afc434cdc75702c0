use sensorflow::config::{mask_db_url, parse_u32};
use sensorflow::{load_from_env, Config, ConfigError, ConfigVar};

fn s(v: &str) -> Option<String> {
    Some(v.to_string())
}

#[test]
fn loads_required_values_and_defaults() {
    let c = load_from_env(s("postgres://db"), s("http://api"), None, None).unwrap();
    assert_eq!(c.db_url, "postgres://db");
    assert_eq!(c.api_url, "http://api");
    assert_eq!(c.db_pool_max, 5);
    assert_eq!(c.api_max_pages, 100);
}

#[test]
fn loads_numeric_overrides() {
    let c = load_from_env(s("d"), s("a"), s("12"), s("+3")).unwrap();
    assert_eq!((c.db_pool_max, c.api_max_pages), (12, 3));
}

#[test]
fn reports_the_first_problem() {
    assert_eq!(
        load_from_env(None, None, s("x"), None).unwrap_err(),
        ConfigError::Missing(ConfigVar::DatabaseUrl)
    );
    assert_eq!(
        load_from_env(s("d"), None, None, None).unwrap_err(),
        ConfigError::Missing(ConfigVar::SensorApiUrl)
    );
    assert_eq!(
        load_from_env(s("d"), s("a"), s("five"), s("x")).unwrap_err(),
        ConfigError::Invalid(ConfigVar::DbPoolMax)
    );
    assert_eq!(
        load_from_env(s("d"), s("a"), s("5"), s("-1")).unwrap_err(),
        ConfigError::Invalid(ConfigVar::ApiMaxPages)
    );
    assert_eq!(ConfigVar::ApiMaxPages.name(), "API_MAX_PAGES");
    assert_eq!(ConfigVar::DatabaseUrl.name(), "DATABASE_URL");
}

#[test]
fn parses_u32_like_std() {
    for t in ["0", "7", "+42", "007", "4294967295", "4294967296", "", "+", "-", "-0", " 1", "1 ", "12a", "99999999999"] {
        assert_eq!(parse_u32(t), t.parse::<u32>().ok(), "{t:?}");
    }
}

#[test]
fn masks_the_password() {
    assert_eq!(mask_db_url("postgres://user:secret@db:5432/x"), "postgres://user:****@db:5432/x");
    assert_eq!(mask_db_url("postgres://db:5432/x"), "postgres://db:5432/x");
    assert_eq!(mask_db_url("user@host"), "user@host");
    assert_eq!(mask_db_url("a:b@c@d"), "a:****@d");
}

#[test]
fn log_lines_show_every_value() {
    let c = Config {
        db_url: "postgres://u:pw@h/db".to_string(),
        db_pool_max: 5,
        api_url: "http://api".to_string(),
        api_max_pages: 100,
    };
    assert_eq!(
        c.log_config(),
        vec![
            "Configuration loaded:",
            "  DATABASE_URL   : postgres://u:****@h/db",
            "  SENSOR_API_URL : http://api",
            "  DB_POOL_MAX    : 5",
            "  API_MAX_PAGES  : 100",
        ]
    );
}
