use envman::{Binder, EnvMan, EnvManError, Field, NamingPolicy, Settings};

#[derive(Debug, PartialEq, Clone, Copy)]
struct Addr {
    ip: [u8; 4],
    port: u16,
}

fn addr(s: &str) -> Result<Addr, String> {
    let (host, port) = s.split_once(':').ok_or_else(|| "missing port".to_string())?;
    let parts: Vec<&str> = host.split('.').collect();
    if parts.len() != 4 {
        return Err("invalid address".to_string());
    }
    let mut ip = [0u8; 4];
    for (slot, part) in ip.iter_mut().zip(parts) {
        *slot = part.parse::<u8>().map_err(|e| e.to_string())?;
    }
    let port = port.parse::<u16>().map_err(|e| e.to_string())?;
    Ok(Addr { ip, port })
}

fn text(s: &str) -> Result<String, String> {
    Ok(s.to_string())
}

fn small(s: &str) -> Result<u8, String> {
    s.parse::<u8>().map_err(|e| e.to_string())
}

fn any<T>(_: &T) -> Result<(), String> {
    Ok(())
}

#[derive(Debug, PartialEq)]
struct TestNormal {
    db_url: String,
    db_ip: Addr,
    db_max_conn: u8,
}

impl EnvMan for TestNormal {
    fn load(source: &Settings, test_mode: bool) -> Result<Self, EnvManError> {
        let b = Binder::new(source, test_mode, NamingPolicy::new(), "TestNormal");
        Ok(TestNormal {
            db_url: b.scalar(
                Field::new("db_url").default_value(String::from("mysql://localhost")),
                &text,
                &any,
            )?,
            db_ip: b.scalar(
                Field::new("db_ip").default_value(Addr { ip: [127, 0, 0, 1], port: 8080 }),
                &addr,
                &any,
            )?,
            db_max_conn: b.scalar(Field::new("db_max_conn").default_value(10), &small, &any)?,
        })
    }
}

#[test]
fn alltime_parse_test_normal() {
    let mut source = Settings::new();
    source.set("DB_URL", "mysql://example");
    source.set("DB_IP", "127.0.0.1:80");

    assert_eq!(
        TestNormal::load(&source, true).unwrap(),
        TestNormal {
            db_url: String::from("mysql://example"),
            db_ip: addr("127.0.0.1:80").unwrap(),
            db_max_conn: 10
        }
    );
}
