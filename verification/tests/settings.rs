use mqtt_command::document::{item_at, Item};
use mqtt_command::settings::{Config, ConfigError, Rabbitmq, Service};

const FULL: &str = r#"
[service]
port = 8080
mongo = "mongodb://db.example:27017"

[rabbitmq]
server = "broker.example"
port = 8883
topic = "commands"
clientid = "sender-1"
sleep = 50
user = "alice"
password = "wonderland"
"#;

fn silent_service() -> Service {
    Service { port: None, mongo: None }
}

fn silent_rabbitmq() -> Rabbitmq {
    Rabbitmq {
        server: None,
        port: None,
        topic: None,
        clientid: None,
        sleep: None,
        user: None,
        password: None,
    }
}

fn table(entries: Vec<(&str, toml::Value)>) -> toml::Value {
    let mut map = toml::value::Table::new();
    for (key, value) in entries {
        map.insert(key.to_string(), value);
    }
    toml::Value::Table(map)
}

#[test]
fn load_keeps_every_stated_value() {
    let config = Config::load(FULL).unwrap();
    assert_eq!(config.port(), 8080);
    assert_eq!(config.mongo(), "mongodb://db.example:27017");
    assert_eq!(config.mq_host(), "broker.example");
    assert_eq!(config.mq_port(), 8883);
    assert_eq!(config.mq_topic(), "commands");
    assert_eq!(config.mq_clientid(), "sender-1");
    assert_eq!(config.mq_sleep(), 50);
    assert_eq!(config.mq_user(), "alice");
    assert_eq!(config.mq_password(), "wonderland");
}

#[test]
fn load_of_empty_sections_gives_every_default() {
    let config = Config::load("[service]\n[rabbitmq]\n").unwrap();
    assert_eq!(config.port(), 10086);
    assert_eq!(config.mongo(), "mongodb://localhost:27017");
    assert_eq!(config.mq_host(), "127.0.0.1");
    assert_eq!(config.mq_port(), 1883);
    assert_eq!(config.mq_topic(), "topic.ylz");
    assert_eq!(config.mq_clientid(), "ylz_log_viewer");
    assert_eq!(config.mq_sleep(), 200);
    assert_eq!(config.mq_user(), "ylzyx");
    assert_eq!(config.mq_password(), "ylzyx");
    assert_eq!(config, Config::new(silent_service(), silent_rabbitmq()));
}

#[test]
fn load_mixes_stated_values_and_defaults() {
    let text = "[service]\nport = 9000\n[rabbitmq]\ntopic = \"alerts\"\nuser = \"bob\"\n";
    let config = Config::load(text).unwrap();
    assert_eq!(config.port(), 9000);
    assert_eq!(config.mongo(), "mongodb://localhost:27017");
    assert_eq!(config.mq_host(), "127.0.0.1");
    assert_eq!(config.mq_port(), 1883);
    assert_eq!(config.mq_topic(), "alerts");
    assert_eq!(config.mq_clientid(), "ylz_log_viewer");
    assert_eq!(config.mq_sleep(), 200);
    assert_eq!(config.mq_user(), "bob");
    assert_eq!(config.mq_password(), "ylzyx");
}

#[test]
fn load_reads_inline_tables_and_dotted_keys() {
    let config = Config::load("service = { port = 1 }\nrabbitmq.port = 2\n").unwrap();
    assert_eq!(config.port(), 1);
    assert_eq!(config.mq_port(), 2);
}

#[test]
fn load_ignores_keys_and_sections_it_does_not_know() {
    let text = "title = \"x\"\n[service]\nextra = true\n[rabbitmq]\nvhost = \"/\"\n[other]\na = 1\n";
    let config = Config::load(text).unwrap();
    assert_eq!(config, Config::new(silent_service(), silent_rabbitmq()));
}

#[test]
fn load_rejects_text_that_is_not_toml() {
    assert_eq!(Config::load("[service\nport = 1"), Err(ConfigError::Syntax));
    assert_eq!(Config::load("[service]\nport = \n[rabbitmq]\n"), Err(ConfigError::Syntax));
    assert_eq!(
        Config::load("[service]\nport = 1\nport = 2\n[rabbitmq]\n"),
        Err(ConfigError::Syntax)
    );
}

#[test]
fn load_rejects_a_missing_section() {
    assert_eq!(Config::load(""), Err(ConfigError::MissingSection));
    assert_eq!(Config::load("[rabbitmq]\n"), Err(ConfigError::MissingSection));
    assert_eq!(Config::load("[service]\nport = 1\n"), Err(ConfigError::MissingSection));
}

#[test]
fn load_rejects_a_section_that_is_no_table() {
    assert_eq!(Config::load("service = 5\n[rabbitmq]\n"), Err(ConfigError::WrongType));
    assert_eq!(Config::load("rabbitmq = \"x\"\n[service]\n"), Err(ConfigError::WrongType));
    assert_eq!(Config::load("[[service]]\n[rabbitmq]\n"), Err(ConfigError::WrongType));
}

#[test]
fn load_rejects_a_value_of_the_wrong_type() {
    assert_eq!(
        Config::load("[service]\nport = \"8080\"\n[rabbitmq]\n"),
        Err(ConfigError::WrongType)
    );
    assert_eq!(Config::load("[service]\nport = 1.5\n[rabbitmq]\n"), Err(ConfigError::WrongType));
    assert_eq!(Config::load("[service]\nmongo = 7\n[rabbitmq]\n"), Err(ConfigError::WrongType));
    assert_eq!(
        Config::load("[service]\n[rabbitmq]\nserver = true\n"),
        Err(ConfigError::WrongType)
    );
    assert_eq!(
        Config::load("[service]\n[rabbitmq]\ntopic = [\"a\"]\n"),
        Err(ConfigError::WrongType)
    );
    assert_eq!(
        Config::load("[service]\n[rabbitmq]\nsleep = 1979-05-27T07:32:00Z\n"),
        Err(ConfigError::WrongType)
    );
}

#[test]
fn load_rejects_a_number_out_of_range() {
    assert_eq!(
        Config::load("[service]\nport = 2147483648\n[rabbitmq]\n"),
        Err(ConfigError::OutOfRange)
    );
    assert_eq!(
        Config::load("[service]\n[rabbitmq]\nport = 65536\n"),
        Err(ConfigError::OutOfRange)
    );
    assert_eq!(Config::load("[service]\n[rabbitmq]\nport = -1\n"), Err(ConfigError::OutOfRange));
    assert_eq!(
        Config::load("[service]\n[rabbitmq]\nsleep = -2147483649\n"),
        Err(ConfigError::OutOfRange)
    );
}

#[test]
fn load_accepts_the_bounds_of_each_number() {
    let text = "[service]\nport = 2147483647\n[rabbitmq]\nport = 65535\nsleep = -2147483648\n";
    let config = Config::load(text).unwrap();
    assert_eq!(config.port(), 2147483647);
    assert_eq!(config.mq_port(), 65535);
    assert_eq!(config.mq_sleep(), -2147483648);
    let config = Config::load("[service]\n[rabbitmq]\nport = 0\n").unwrap();
    assert_eq!(config.mq_port(), 0);
}

#[test]
fn load_reports_the_first_fault_in_reading_order() {
    // a fault of the service section comes before a missing rabbitmq section
    assert_eq!(Config::load("[service]\nport = \"x\"\n"), Err(ConfigError::WrongType));
    // a missing service section comes before a fault of the rabbitmq section
    assert_eq!(Config::load("[rabbitmq]\nport = 70000\n"), Err(ConfigError::MissingSection));
    // port comes before mongo
    assert_eq!(
        Config::load("[service]\nport = 2147483648\nmongo = 1\n[rabbitmq]\n"),
        Err(ConfigError::OutOfRange)
    );
    // server comes before port, port before sleep
    assert_eq!(
        Config::load("[service]\n[rabbitmq]\nserver = 1\nport = 70000\n"),
        Err(ConfigError::WrongType)
    );
    assert_eq!(
        Config::load("[service]\n[rabbitmq]\nport = 70000\nsleep = \"x\"\n"),
        Err(ConfigError::OutOfRange)
    );
}

#[test]
fn from_document_reads_a_value_built_by_hand() {
    let root = table(vec![
        ("service", table(vec![("port", toml::Value::Integer(81))])),
        ("rabbitmq", table(vec![("topic", toml::Value::String("t".to_string()))])),
    ]);
    let config = Config::from_document(&root).unwrap();
    assert_eq!(config.port(), 81);
    assert_eq!(config.mq_topic(), "t");
    assert_eq!(config.mq_port(), 1883);
}

#[test]
fn from_document_rejects_a_root_that_is_no_table() {
    assert_eq!(Config::from_document(&toml::Value::Integer(1)), Err(ConfigError::MissingSection));
    let root = table(vec![("service", table(vec![])), ("rabbitmq", toml::Value::Boolean(true))]);
    assert_eq!(Config::from_document(&root), Err(ConfigError::WrongType));
}

#[test]
fn sections_are_read_from_tables() {
    let section = table(vec![
        ("port", toml::Value::Integer(5)),
        ("mongo", toml::Value::String("m".to_string())),
    ]);
    assert_eq!(
        Service::from_table(&section),
        Ok(Service { port: Some(5), mongo: Some("m".to_string()) })
    );
    let section = table(vec![("sleep", toml::Value::Integer(9))]);
    let mut expected = silent_rabbitmq();
    expected.sleep = Some(9);
    assert_eq!(Rabbitmq::from_table(&section), Ok(expected));
    assert_eq!(Service::from_table(&toml::Value::Integer(3)), Ok(silent_service()));
}

#[test]
fn item_at_copies_out_what_stands_at_a_key() {
    let section = table(vec![
        ("n", toml::Value::Integer(-7)),
        ("s", toml::Value::String("text".to_string())),
        ("b", toml::Value::Boolean(false)),
        ("f", toml::Value::Float(1.5)),
        ("a", toml::Value::Array(vec![])),
        ("t", table(vec![])),
    ]);
    assert_eq!(item_at(&section, "n"), Item::Integer(-7));
    assert_eq!(item_at(&section, "s"), Item::Text("text".to_string()));
    assert_eq!(item_at(&section, "b"), Item::Other);
    assert_eq!(item_at(&section, "f"), Item::Other);
    assert_eq!(item_at(&section, "a"), Item::Other);
    assert_eq!(item_at(&section, "t"), Item::Other);
    assert_eq!(item_at(&section, "missing"), Item::Absent);
    assert_eq!(item_at(&toml::Value::Integer(1), "n"), Item::Absent);
    assert_eq!(item_at(&toml::Value::Array(vec![toml::Value::Integer(1)]), "0"), Item::Absent);
}

#[test]
fn item_as_i32_checks_the_range() {
    assert_eq!(Item::Absent.as_i32(), Ok(None));
    assert_eq!(Item::Integer(0).as_i32(), Ok(Some(0)));
    assert_eq!(Item::Integer(2147483647).as_i32(), Ok(Some(i32::MAX)));
    assert_eq!(Item::Integer(-2147483648).as_i32(), Ok(Some(i32::MIN)));
    assert_eq!(Item::Integer(2147483648).as_i32(), Err(ConfigError::OutOfRange));
    assert_eq!(Item::Integer(-2147483649).as_i32(), Err(ConfigError::OutOfRange));
    assert_eq!(Item::Integer(i64::MAX).as_i32(), Err(ConfigError::OutOfRange));
    assert_eq!(Item::Text("1".to_string()).as_i32(), Err(ConfigError::WrongType));
    assert_eq!(Item::Other.as_i32(), Err(ConfigError::WrongType));
}

#[test]
fn item_as_u16_checks_the_range() {
    assert_eq!(Item::Absent.as_u16(), Ok(None));
    assert_eq!(Item::Integer(0).as_u16(), Ok(Some(0)));
    assert_eq!(Item::Integer(1883).as_u16(), Ok(Some(1883)));
    assert_eq!(Item::Integer(65535).as_u16(), Ok(Some(u16::MAX)));
    assert_eq!(Item::Integer(65536).as_u16(), Err(ConfigError::OutOfRange));
    assert_eq!(Item::Integer(-1).as_u16(), Err(ConfigError::OutOfRange));
    assert_eq!(Item::Integer(i64::MIN).as_u16(), Err(ConfigError::OutOfRange));
    assert_eq!(Item::Text("1".to_string()).as_u16(), Err(ConfigError::WrongType));
    assert_eq!(Item::Other.as_u16(), Err(ConfigError::WrongType));
}

#[test]
fn item_into_text_takes_strings_only() {
    assert_eq!(Item::Absent.into_text(), Ok(None));
    assert_eq!(Item::Text("abc".to_string()).into_text(), Ok(Some("abc".to_string())));
    assert_eq!(Item::Text(String::new()).into_text(), Ok(Some(String::new())));
    assert_eq!(Item::Integer(1).into_text(), Err(ConfigError::WrongType));
    assert_eq!(Item::Other.into_text(), Err(ConfigError::WrongType));
}

#[test]
fn service_from_items_reports_port_before_mongo() {
    assert_eq!(
        Service::from_items(Item::Integer(80), Item::Text("m".to_string())),
        Ok(Service { port: Some(80), mongo: Some("m".to_string()) })
    );
    assert_eq!(Service::from_items(Item::Absent, Item::Absent), Ok(silent_service()));
    assert_eq!(
        Service::from_items(Item::Integer(1 << 40), Item::Other),
        Err(ConfigError::OutOfRange)
    );
    assert_eq!(Service::from_items(Item::Integer(1), Item::Other), Err(ConfigError::WrongType));
}

#[test]
fn rabbitmq_from_items_keeps_each_item_in_its_field() {
    let built = Rabbitmq::from_items(
        Item::Text("h".to_string()),
        Item::Integer(1),
        Item::Text("t".to_string()),
        Item::Text("c".to_string()),
        Item::Integer(2),
        Item::Text("u".to_string()),
        Item::Text("p".to_string()),
    );
    let expected = Rabbitmq {
        server: Some("h".to_string()),
        port: Some(1),
        topic: Some("t".to_string()),
        clientid: Some("c".to_string()),
        sleep: Some(2),
        user: Some("u".to_string()),
        password: Some("p".to_string()),
    };
    assert_eq!(built, Ok(expected));
}

#[test]
fn rabbitmq_from_items_reports_the_first_fault() {
    let absent = || Item::Absent;
    assert_eq!(
        Rabbitmq::from_items(absent(), absent(), absent(), absent(), absent(), absent(), absent()),
        Ok(silent_rabbitmq())
    );
    assert_eq!(
        Rabbitmq::from_items(
            absent(),
            Item::Integer(70000),
            Item::Integer(1),
            absent(),
            absent(),
            absent(),
            absent()
        ),
        Err(ConfigError::OutOfRange)
    );
    assert_eq!(
        Rabbitmq::from_items(
            absent(),
            absent(),
            absent(),
            absent(),
            Item::Integer(1 << 33),
            absent(),
            Item::Other
        ),
        Err(ConfigError::OutOfRange)
    );
    assert_eq!(
        Rabbitmq::from_items(
            absent(),
            absent(),
            absent(),
            absent(),
            absent(),
            absent(),
            Item::Integer(1)
        ),
        Err(ConfigError::WrongType)
    );
}

#[test]
fn getters_return_what_the_sections_hold() {
    let service = Service { port: Some(-3), mongo: Some(String::new()) };
    let mut rabbitmq = silent_rabbitmq();
    rabbitmq.server = Some("example.org".to_string());
    rabbitmq.password = Some("secret".to_string());
    let config = Config::new(service, rabbitmq);
    assert_eq!(config.port(), -3);
    assert_eq!(config.mongo(), "");
    assert_eq!(config.mq_host(), "example.org");
    assert_eq!(config.mq_password(), "secret");
    assert_eq!(config.mq_user(), "ylzyx");
}

#[test]
fn every_config_error_has_its_message() {
    assert_eq!(ConfigError::Syntax.message(), "the settings file is not valid TOML");
    assert_eq!(ConfigError::MissingSection.message(), "the settings file lacks a section");
    assert_eq!(ConfigError::WrongType.message(), "a setting has a value of the wrong type");
    assert_eq!(ConfigError::OutOfRange.message(), "a setting has a number out of range");
}
