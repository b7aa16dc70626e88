use envman::{Binder, EnvMan, EnvManError, Field, NamingPolicy, Settings};

fn text(s: &str) -> Result<String, String> {
    Ok(s.to_string())
}

fn any<T>(_: &T) -> Result<(), String> {
    Ok(())
}

#[derive(Debug, PartialEq)]
struct TestTestValue {
    secret_1: String,
    secret_2: String,
}

impl EnvMan for TestTestValue {
    fn load(source: &Settings, test_mode: bool) -> Result<Self, EnvManError> {
        let b = Binder::new(source, test_mode, NamingPolicy::new(), "TestTestValue");
        Ok(TestTestValue {
            secret_1: b.scalar(Field::new("secret_1").test_value("2".to_string()), &text, &any)?,
            secret_2: b.scalar(
                Field::new("secret_2").default_value("1".to_string()).test_value("3".to_string()),
                &text,
                &any,
            )?,
        })
    }
}

#[test]
fn test_test_test_value() {
    let source = Settings::new();
    assert_eq!(
        TestTestValue::load(&source, true).unwrap(),
        TestTestValue {
            secret_1: String::from("2"),
            secret_2: String::from("3")
        }
    );
}

#[test]
fn test_values_are_ignored_outside_test_mode() {
    let mut source = Settings::new();
    source.set("SECRET_1", "live");
    let bound = TestTestValue::load(&source, false).unwrap();
    assert_eq!(bound.secret_1, "live");
    assert_eq!(bound.secret_2, "1");
}
