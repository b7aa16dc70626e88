use envman::{Binder, EnvMan, EnvManError, Field, NamingPolicy, Settings};

fn text(s: &str) -> Result<String, String> {
    Ok(s.to_string())
}

fn any<T>(_: &T) -> Result<(), String> {
    Ok(())
}

#[derive(Debug, PartialEq)]
struct TestRename {
    db_url_1: String,
    db_url_2: String,
}

impl EnvMan for TestRename {
    fn load(source: &Settings, test_mode: bool) -> Result<Self, EnvManError> {
        let b = Binder::new(source, test_mode, NamingPolicy::new(), "TestRename");
        Ok(TestRename {
            db_url_1: b.scalar(Field::new("db_url_1").rename("CORE_DB_URL"), &text, &any)?,
            db_url_2: b.scalar(Field::new("db_url_2").rename("transaction_db_url"), &text, &any)?,
        })
    }
}

#[test]
fn rename_test_rename() {
    let mut source = Settings::new();
    source.set("CORE_DB_URL", "mysql://example.1");
    source.set("transaction_db_url", "mysql://example.2");

    assert_eq!(
        TestRename::load(&source, true).unwrap(),
        TestRename {
            db_url_1: String::from("mysql://example.1"),
            db_url_2: String::from("mysql://example.2")
        }
    );
}
