use envman::{Binder, EnvMan, EnvManError, Field, NamingPolicy, Settings};

fn text(s: &str) -> Result<String, String> {
    Ok(s.to_string())
}

fn small(s: &str) -> Result<u8, String> {
    s.parse::<u8>().map_err(|e| e.to_string())
}

fn any<T>(_: &T) -> Result<(), String> {
    Ok(())
}

#[derive(Debug, PartialEq)]
struct Normal {
    db_url: String,
    db_max_conn: u8,
}

impl EnvMan for Normal {
    fn load(source: &Settings, test_mode: bool) -> Result<Self, EnvManError> {
        let b = Binder::new(source, test_mode, NamingPolicy::new(), "Normal");
        Ok(Normal {
            db_url: b.scalar(Field::new("db_url"), &text, &any)?,
            db_max_conn: b.scalar(Field::new("db_max_conn"), &small, &any)?,
        })
    }
}

#[test]
fn lib_normal() {
    let mut source = Settings::new();
    source.set("DB_URL", "mysql://example");
    source.set("DB_MAX_CONN", "5");
    assert_eq!(
        Normal::load(&source, true).unwrap(),
        Normal {
            db_url: String::from("mysql://example"),
            db_max_conn: 5
        }
    );
}

#[derive(Debug, PartialEq)]
struct Rename {
    db_url_1: String,
    db_url_2: String,
}

impl EnvMan for Rename {
    fn load(source: &Settings, test_mode: bool) -> Result<Self, EnvManError> {
        let b = Binder::new(source, test_mode, NamingPolicy::new(), "Rename");
        Ok(Rename {
            db_url_1: b.scalar(Field::new("db_url_1").rename("CORE_DB_URL"), &text, &any)?,
            db_url_2: b.scalar(Field::new("db_url_2").rename("TRANSACTION_DB_URL"), &text, &any)?,
        })
    }
}

#[test]
fn lib_rename() {
    let mut source = Settings::new();
    source.set("CORE_DB_URL", "mysql://example.1");
    source.set("TRANSACTION_DB_URL", "mysql://example.2");
    assert_eq!(
        Rename::load(&source, true).unwrap(),
        Rename {
            db_url_1: String::from("mysql://example.1"),
            db_url_2: String::from("mysql://example.2")
        }
    );
}

#[derive(Debug, PartialEq)]
struct TestDefault {
    redis_url: String,
    redis_max_conn: u8,
}

impl EnvMan for TestDefault {
    fn load(source: &Settings, test_mode: bool) -> Result<Self, EnvManError> {
        let b = Binder::new(source, test_mode, NamingPolicy::new(), "TestDefault");
        Ok(TestDefault {
            redis_url: b.scalar(Field::new("redis_url"), &text, &any)?,
            redis_max_conn: b.scalar(Field::new("redis_max_conn").default_text("5"), &small, &any)?,
        })
    }
}

#[test]
fn lib_default() {
    let mut source = Settings::new();
    source.set("REDIS_URL", "redis://example");
    assert_eq!(
        TestDefault::load(&source, true).unwrap(),
        TestDefault {
            redis_url: String::from("redis://example"),
            redis_max_conn: 5
        }
    );
}

#[derive(Debug, PartialEq)]
struct TestOption {
    secret_1: Option<String>,
    secret_2: Option<String>,
}

impl EnvMan for TestOption {
    fn load(source: &Settings, test_mode: bool) -> Result<Self, EnvManError> {
        let b = Binder::new(source, test_mode, NamingPolicy::new(), "TestOption");
        Ok(TestOption {
            secret_1: b.optional(Field::new("secret_1"), &text, &any)?,
            secret_2: b.optional(Field::new("secret_2").default_text("5"), &text, &any)?,
        })
    }
}

#[test]
fn lib_option() {
    let source = Settings::new();
    assert_eq!(
        TestOption::load(&source, true).unwrap(),
        TestOption {
            secret_1: None,
            secret_2: Some(String::from("5"))
        }
    );
}

#[derive(Debug, PartialEq)]
struct TestTestValue {
    secret_1: String,
    secret_2: String,
}

impl EnvMan for TestTestValue {
    fn load(source: &Settings, test_mode: bool) -> Result<Self, EnvManError> {
        let b = Binder::new(source, test_mode, NamingPolicy::new(), "TestTestValue");
        Ok(TestTestValue {
            secret_1: b.scalar(Field::new("secret_1").test_text("2"), &text, &any)?,
            secret_2: b.scalar(
                Field::new("secret_2").default_text("1").test_text("3"),
                &text,
                &any,
            )?,
        })
    }
}

#[test]
fn lib_test_value() {
    let source = Settings::new();
    assert_eq!(
        TestTestValue::load(&source, true).unwrap(),
        TestTestValue {
            secret_1: String::from("2"),
            secret_2: String::from("3")
        }
    );
}
