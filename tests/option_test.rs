use envman::{Binder, EnvMan, EnvManError, Field, NamingPolicy, Settings};

fn text(s: &str) -> Result<String, String> {
    Ok(s.to_string())
}

fn any<T>(_: &T) -> Result<(), String> {
    Ok(())
}

#[derive(Debug, PartialEq)]
struct TestOption {
    secret_1: Option<String>,
    secret_2: Option<String>,
}

impl EnvMan for TestOption {
    fn load(source: &Settings, test_mode: bool) -> Result<Self, EnvManError> {
        let b = Binder::new(source, test_mode, NamingPolicy::new(), "TestOption");
        Ok(TestOption {
            secret_1: b.optional(Field::new("secret_1"), &text, &any)?,
            secret_2: b.optional(Field::new("secret_2").default_value("5".to_string()), &text, &any)?,
        })
    }
}

#[test]
fn option_test_option() {
    let source = Settings::new();
    assert_eq!(
        TestOption::load(&source, true).unwrap(),
        TestOption {
            secret_1: None,
            secret_2: Some(String::from("5"))
        }
    );
}
