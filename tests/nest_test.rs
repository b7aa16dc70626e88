use envman::{Binder, EnvMan, EnvManError, Field, NamingPolicy, Settings};

#[derive(Debug, PartialEq, Clone, Copy)]
struct Addr {
    ip: [u8; 4],
    port: u16,
}

fn addr(s: &str) -> Result<Addr, String> {
    let (host, port) = s.split_once(':').ok_or_else(|| "missing port".to_string())?;
    let parts: Vec<&str> = host.split('.').collect();
    if parts.len() != 4 {
        return Err("invalid address".to_string());
    }
    let mut ip = [0u8; 4];
    for (slot, part) in ip.iter_mut().zip(parts) {
        *slot = part.parse::<u8>().map_err(|e| e.to_string())?;
    }
    let port = port.parse::<u16>().map_err(|e| e.to_string())?;
    Ok(Addr { ip, port })
}

fn small(s: &str) -> Result<u8, String> {
    s.parse::<u8>().map_err(|e| e.to_string())
}

fn any<T>(_: &T) -> Result<(), String> {
    Ok(())
}

#[derive(Debug, PartialEq)]
struct TestNest {
    server_ip: Addr,
    backend: Option<BackEndConfig>,
}

impl EnvMan for TestNest {
    fn load(source: &Settings, test_mode: bool) -> Result<Self, EnvManError> {
        let b = Binder::new(source, test_mode, NamingPolicy::new(), "TestNest");
        Ok(TestNest {
            server_ip: b.scalar(Field::new("server_ip"), &addr, &any)?,
            backend: b.optional_nested(None, Some(BackEndConfig::default())),
        })
    }
}

#[derive(Debug, PartialEq)]
struct BackEndConfig {
    backend_ip: Addr,
    backend_kind: u8,
}

impl EnvMan for BackEndConfig {
    fn load(source: &Settings, test_mode: bool) -> Result<Self, EnvManError> {
        let b = Binder::new(source, test_mode, NamingPolicy::new(), "BackEndConfig");
        Ok(BackEndConfig {
            backend_ip: b.scalar(Field::new("backend_ip"), &addr, &any)?,
            backend_kind: b.scalar(Field::new("backend_kind"), &small, &any)?,
        })
    }
}

impl Default for BackEndConfig {
    fn default() -> Self {
        Self {
            backend_ip: Addr { ip: [127, 0, 0, 1], port: 3000 },
            backend_kind: Default::default(),
        }
    }
}

#[test]
fn nest() {
    let mut source = Settings::new();
    source.set("SERVER_IP", "127.0.0.1:80");
    source.set("BACKEND_IP", "127.0.0.1:5000");

    assert_eq!(
        TestNest {
            server_ip: addr("127.0.0.1:80").unwrap(),
            backend: Some(BackEndConfig {
                backend_ip: addr("127.0.0.1:3000").unwrap(),
                backend_kind: 0
            })
        },
        TestNest::load(&source, true).unwrap()
    );

    source.set("BACKEND_KIND", "5");

    assert_eq!(
        TestNest {
            server_ip: addr("127.0.0.1:80").unwrap(),
            backend: Some(BackEndConfig {
                backend_ip: addr("127.0.0.1:5000").unwrap(),
                backend_kind: 5
            })
        },
        TestNest::load(&source, true).unwrap()
    );
}

#[derive(Debug, PartialEq)]
struct Server {
    ip: Addr,
    kind: u8,
}

impl EnvMan for Server {
    fn load(source: &Settings, test_mode: bool) -> Result<Self, EnvManError> {
        let naming = NamingPolicy::from_settings(None, Some("SERVER_"), None).unwrap();
        let b = Binder::new(source, test_mode, naming, "Server");
        Ok(Server {
            ip: b.scalar(
                Field::new("ip").default_value(Addr { ip: [127, 0, 0, 1], port: 3000 }),
                &addr,
                &any,
            )?,
            kind: b.scalar(Field::new("kind").default_value(0), &small, &any)?,
        })
    }
}

#[derive(Debug, PartialEq)]
struct Outer {
    server: Server,
}

impl EnvMan for Outer {
    fn load(source: &Settings, test_mode: bool) -> Result<Self, EnvManError> {
        let b = Binder::new(source, test_mode, NamingPolicy::new(), "Outer");
        let fallback = Server { ip: Addr { ip: [127, 0, 0, 1], port: 3000 }, kind: 0 };
        Ok(Outer {
            server: b.nested(None, Some(fallback))?,
        })
    }
}

#[test]
fn nested_default_and_field_fallbacks() {
    let source = Settings::new();
    let outer = Outer::load(&source, false).unwrap();
    assert_eq!(outer.server, Server { ip: addr("127.0.0.1:3000").unwrap(), kind: 0 });

    let mut source = Settings::new();
    source.set("SERVER_IP", "10.0.0.1:8080");
    let outer = Outer::load(&source, false).unwrap();
    assert_eq!(outer.server, Server { ip: addr("10.0.0.1:8080").unwrap(), kind: 0 });
}

#[test]
fn nested_failure_without_default_is_the_field_own() {
    let source = Settings::new();
    let b = Binder::new(&source, false, NamingPolicy::new(), "TestNest");
    match b.nested::<BackEndConfig>(None, None) {
        Err(EnvManError::NotFound { key }) => assert_eq!(key, "BACKEND_IP"),
        other => panic!("unexpected {:?}", other),
    }
    assert_eq!(b.optional_nested::<BackEndConfig>(None, None), None);
}

#[test]
fn nested_test_override_skips_loading() {
    let source = Settings::new();
    let b = Binder::new(&source, true, NamingPolicy::new(), "TestNest");
    let given = BackEndConfig { backend_ip: addr("1.2.3.4:5").unwrap(), backend_kind: 9 };
    let bound = b.nested::<BackEndConfig>(Some(given), None).unwrap();
    assert_eq!(bound.backend_kind, 9);
}
