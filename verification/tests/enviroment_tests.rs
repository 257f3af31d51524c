use calby_docs::enviroment::{not_provided, EnvVars, Mode, ServerConfig};

fn env(pairs: &[(&str, &str)]) -> EnvVars {
    EnvVars { vars: pairs.iter().map(|(k, v)| (k.to_string(), v.to_string())).collect() }
}

#[test]
fn missing_setting_message() {
    assert_eq!(not_provided("DATABASE_URL"), "variable DATABASE_URL not provided");
}

#[test]
fn lookup_takes_first() {
    let e = env(&[("A", "1"), ("B", "2"), ("A", "3")]);
    assert_eq!(e.var("A"), Some("1".to_string()));
    assert_eq!(e.var("B"), Some("2".to_string()));
    assert_eq!(e.var("C"), None);
}

#[test]
fn mode_values() {
    assert_eq!(Mode::get_mode(&env(&[("MODE", "production")])), Ok(Mode::Production));
    assert_eq!(Mode::get_mode(&env(&[("MODE", "development")])), Ok(Mode::Development));
    assert_eq!(
        Mode::get_mode(&env(&[])),
        Err("variable MODE not provided".to_string())
    );
    assert_eq!(
        Mode::get_mode(&env(&[("MODE", "Production")])),
        Err("Unexpected value: Production".to_string())
    );
}

#[test]
fn mode_text() {
    assert_eq!(Mode::Production.to_string(), "Production\n");
    assert_eq!(Mode::Development.to_string(), "Development\n");
}

#[test]
fn host_port_per_mode() {
    let e = env(&[("DEV_HOST", "127.0.0.1"), ("DEV_PORT", "50051"), ("PROD_HOST", "0.0.0.0")]);
    assert_eq!(
        Mode::Development.get_host_port(&e),
        Ok(("127.0.0.1".to_string(), "50051".to_string()))
    );
    assert_eq!(
        Mode::Production.get_host_port(&e),
        Err("variable PROD_PORT not provided".to_string())
    );
    assert_eq!(
        Mode::Production.get_host_port(&env(&[])),
        Err("variable PROD_HOST not provided".to_string())
    );
}

#[test]
fn config_from_environment() {
    let e = env(&[("MODE", "development"), ("DEV_HOST", "localhost"), ("DEV_PORT", "8080")]);
    let c = ServerConfig::init(&e).unwrap();
    assert_eq!(c.host, "localhost");
    assert_eq!(c.port, "8080");
    assert_eq!(c.format_addr, "http://localhost:8080");
    assert_eq!(c.bind_addr, "localhost:8080");
    assert_eq!(c.mode, Mode::Development);
    assert_eq!(
        c.to_string(),
        "Server started on address: http://localhost:8080\ndevelopment mode: Development\n\n"
    );
}

#[test]
fn config_errors() {
    assert_eq!(
        ServerConfig::init(&env(&[("MODE", "x")])).unwrap_err(),
        "Unexpected value: x"
    );
    assert_eq!(
        ServerConfig::init(&env(&[("MODE", "production"), ("PROD_HOST", "h")])).unwrap_err(),
        "variable PROD_PORT not provided"
    );
}
