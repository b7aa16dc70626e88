use envman::{Binder, EnvMan, EnvManError, Field, NamingPolicy, Settings};

fn text(s: &str) -> Result<String, String> {
    Ok(s.to_string())
}

fn any<T>(_: &T) -> Result<(), String> {
    Ok(())
}

#[derive(Debug, PartialEq)]
struct TestRenameAll {
    url: String,
}

impl EnvMan for TestRenameAll {
    fn load(source: &Settings, test_mode: bool) -> Result<Self, EnvManError> {
        let naming =
            NamingPolicy::from_settings(Some("kebab-case"), Some("db-"), Some("-main")).unwrap();
        let b = Binder::new(source, test_mode, naming, "TestRenameAll");
        Ok(TestRenameAll {
            url: b.scalar(Field::new("url"), &text, &any)?,
        })
    }
}

#[test]
fn rename_all() {
    let mut source = Settings::new();
    source.set("db-url-main", "mysql://example.1");
    assert_eq!(
        TestRenameAll::load(&source, true).unwrap(),
        TestRenameAll {
            url: String::from("mysql://example.1"),
        }
    );
}
