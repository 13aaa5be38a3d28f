//! The settings of a publisher run: what a settings file states, key by key,
//! and the value that each setting takes where the file is silent.

use vstd::prelude::*;
use crate::document::{content, item_at, item_of, member, parse_document, toml_document};
use crate::document::{Item, ItemView, Node};

verus! {

/// The service port where the file states none.
pub const DEFAULT_PORT: i32 = 10086;

/// The storage connection string where the file states none.
pub const DEFAULT_MONGO: &'static str = "mongodb://localhost:27017";

/// The broker host where the file states none.
pub const DEFAULT_HOST: &'static str = "127.0.0.1";

/// The broker port where the file states none.
pub const DEFAULT_BROKER_PORT: u16 = 1883;

/// The topic where the file states none.
pub const DEFAULT_TOPIC: &'static str = "topic.ylz";

/// The client identifier where the file states none.
pub const DEFAULT_CLIENT_ID: &'static str = "ylz_log_viewer";

/// The wait interval in milliseconds where the file states none.
pub const DEFAULT_SLEEP: i32 = 200;

/// The user name where the file states none.
pub const DEFAULT_USER: &'static str = "ylzyx";

/// The password where the file states none.
pub const DEFAULT_PASSWORD: &'static str = "ylzyx";

/// Why a text is no settings file.
#[derive(Clone, Copy, Debug, PartialEq, Eq, Structural)]
pub enum ConfigError {
    /// The text is not TOML.
    Syntax,
    /// The `service` or the `rabbitmq` section is missing.
    MissingSection,
    /// A section is no table, or a key holds a value of another type than
    /// the setting has.
    WrongType,
    /// An integer does not fit the setting.
    OutOfRange,
}

impl ConfigError {
    /// The text of `message`.
    pub open spec fn message_text(self) -> Seq<char> {
        match self {
            ConfigError::Syntax => "the settings file is not valid TOML"@,
            ConfigError::MissingSection => "the settings file lacks a section"@,
            ConfigError::WrongType => "a setting has a value of the wrong type"@,
            ConfigError::OutOfRange => "a setting has a number out of range"@,
        }
    }

    /// A line for the operator.
    pub fn message(&self) -> (r: &'static str)
        ensures
            r@ == self.message_text(),
    {
        match self {
            ConfigError::Syntax => "the settings file is not valid TOML",
            ConfigError::MissingSection => "the settings file lacks a section",
            ConfigError::WrongType => "a setting has a value of the wrong type",
            ConfigError::OutOfRange => "a setting has a number out of range",
        }
    }
}

impl ItemView {
    /// The item as an optional setting of type `i32`.
    pub open spec fn as_i32(self) -> Result<Option<i32>, ConfigError> {
        match self {
            ItemView::Absent => Ok(None),
            ItemView::Integer(i) => if i32::MIN <= i <= i32::MAX {
                Ok(Some(i as i32))
            } else {
                Err(ConfigError::OutOfRange)
            },
            _ => Err(ConfigError::WrongType),
        }
    }

    /// The item as an optional setting of type `u16`.
    pub open spec fn as_u16(self) -> Result<Option<u16>, ConfigError> {
        match self {
            ItemView::Absent => Ok(None),
            ItemView::Integer(i) => if 0 <= i <= u16::MAX {
                Ok(Some(i as u16))
            } else {
                Err(ConfigError::OutOfRange)
            },
            _ => Err(ConfigError::WrongType),
        }
    }

    /// The item as an optional setting that is a string.
    pub open spec fn as_text(self) -> Result<Option<Seq<char>>, ConfigError> {
        match self {
            ItemView::Absent => Ok(None),
            ItemView::Text(text) => Ok(Some(text)),
            _ => Err(ConfigError::WrongType),
        }
    }
}

impl Item {
    /// Reads the item as an optional `i32`: a missing key is `None`, an
    /// integer must fit, anything else has the wrong type.
    pub fn as_i32(&self) -> (r: Result<Option<i32>, ConfigError>)
        ensures
            r == self@.as_i32(),
    {
        match self {
            Item::Absent => Ok(None),
            Item::Integer(i) => {
                if i32::MIN as i64 <= *i && *i <= i32::MAX as i64 {
                    Ok(Some(*i as i32))
                } else {
                    Err(ConfigError::OutOfRange)
                }
            },
            _ => Err(ConfigError::WrongType),
        }
    }

    /// Reads the item as an optional `u16`: a missing key is `None`, an
    /// integer must fit, anything else has the wrong type.
    pub fn as_u16(&self) -> (r: Result<Option<u16>, ConfigError>)
        ensures
            r == self@.as_u16(),
    {
        match self {
            Item::Absent => Ok(None),
            Item::Integer(i) => {
                if 0 <= *i && *i <= u16::MAX as i64 {
                    Ok(Some(*i as u16))
                } else {
                    Err(ConfigError::OutOfRange)
                }
            },
            _ => Err(ConfigError::WrongType),
        }
    }

    /// Reads the item as an optional string: a missing key is `None`,
    /// anything but a string has the wrong type.
    pub fn into_text(self) -> (r: Result<Option<String>, ConfigError>)
        ensures
            match self@.as_text() {
                Ok(text) => r matches Ok(t) && t.deep_view() == text,
                Err(e) => r == Err::<Option<String>, ConfigError>(e),
            },
    {
        match self {
            Item::Absent => Ok(None),
            Item::Text(text) => Ok(Some(text)),
            _ => Err(ConfigError::WrongType),
        }
    }
}

/// The `service` section as the file states it.
#[derive(Clone, Debug, PartialEq, Eq)]
pub struct Service {
    pub port: Option<i32>,
    pub mongo: Option<String>,
}

/// What a `Service` states, with strings as sequences of characters.
pub struct ServiceView {
    pub port: Option<i32>,
    pub mongo: Option<Seq<char>>,
}

impl View for Service {
    type V = ServiceView;

    open spec fn view(&self) -> ServiceView {
        ServiceView { port: self.port, mongo: self.mongo.deep_view() }
    }
}

/// The `rabbitmq` section as the file states it.
#[derive(Clone, Debug, PartialEq, Eq)]
pub struct Rabbitmq {
    pub server: Option<String>,
    pub port: Option<u16>,
    pub topic: Option<String>,
    pub clientid: Option<String>,
    pub sleep: Option<i32>,
    pub user: Option<String>,
    pub password: Option<String>,
}

/// What a `Rabbitmq` states, with strings as sequences of characters.
pub struct RabbitmqView {
    pub server: Option<Seq<char>>,
    pub port: Option<u16>,
    pub topic: Option<Seq<char>>,
    pub clientid: Option<Seq<char>>,
    pub sleep: Option<i32>,
    pub user: Option<Seq<char>>,
    pub password: Option<Seq<char>>,
}

impl View for Rabbitmq {
    type V = RabbitmqView;

    open spec fn view(&self) -> RabbitmqView {
        RabbitmqView {
            server: self.server.deep_view(),
            port: self.port,
            topic: self.topic.deep_view(),
            clientid: self.clientid.deep_view(),
            sleep: self.sleep,
            user: self.user.deep_view(),
            password: self.password.deep_view(),
        }
    }
}

/// The settings of a run. A setting that the file does not state takes its
/// default when it is asked for.
#[derive(Clone, Debug, PartialEq, Eq)]
pub struct Config {
    service: Service,
    rabbitmq: Rabbitmq,
}

/// What a `Config` states in its two sections.
pub struct ConfigView {
    pub service: ServiceView,
    pub rabbitmq: RabbitmqView,
}

impl View for Config {
    type V = ConfigView;

    closed spec fn view(&self) -> ConfigView {
        ConfigView { service: self.service@, rabbitmq: self.rabbitmq@ }
    }
}

/// A result holds what its model holds: the same error, or a value with the
/// model's value as its view.
pub open spec fn agrees<T: View>(r: Result<T, ConfigError>, model: Result<T::V, ConfigError>) -> bool {
    match model {
        Ok(m) => r matches Ok(v) && v@ == m,
        Err(e) => r matches Err(f) && f == e,
    }
}

impl ServiceView {
    /// The section made of the items at its two keys; the first item that
    /// does not fit its setting, `port` before `mongo`, decides the error.
    pub open spec fn from_items(port: ItemView, mongo: ItemView) -> Result<ServiceView, ConfigError> {
        match port.as_i32() {
            Err(e) => Err(e),
            Ok(port) => match mongo.as_text() {
                Err(e) => Err(e),
                Ok(mongo) => Ok(ServiceView { port, mongo }),
            },
        }
    }

    /// The section read from a table.
    pub open spec fn from_table(section: Node) -> Result<ServiceView, ConfigError> {
        ServiceView::from_items(
            item_of(section.entry("port"@)),
            item_of(section.entry("mongo"@)),
        )
    }
}

impl Service {
    /// Builds the section from the items at its keys.
    pub fn from_items(port: Item, mongo: Item) -> (r: Result<Service, ConfigError>)
        ensures
            agrees(r, ServiceView::from_items(port@, mongo@)),
    {
        let port: Option<i32> = match port.as_i32() {
            Ok(port) => port,
            Err(e) => return Err(e),
        };
        let mongo = match mongo.into_text() {
            Ok(mongo) => mongo,
            Err(e) => return Err(e),
        };
        Ok(Service { port, mongo })
    }

    /// Reads the section from a TOML table.
    pub fn from_table(section: &toml::Value) -> (r: Result<Service, ConfigError>)
        ensures
            agrees(r, ServiceView::from_table(content(*section))),
    {
        Service::from_items(item_at(section, "port"), item_at(section, "mongo"))
    }
}

impl RabbitmqView {
    /// The section made of the items at its seven keys; the first item that
    /// does not fit its setting, in the order of the parameters, decides the
    /// error.
    pub open spec fn from_items(
        server: ItemView,
        port: ItemView,
        topic: ItemView,
        clientid: ItemView,
        sleep: ItemView,
        user: ItemView,
        password: ItemView,
    ) -> Result<RabbitmqView, ConfigError> {
        if server.as_text() is Err {
            Err(server.as_text()->Err_0)
        } else if port.as_u16() is Err {
            Err(port.as_u16()->Err_0)
        } else if topic.as_text() is Err {
            Err(topic.as_text()->Err_0)
        } else if clientid.as_text() is Err {
            Err(clientid.as_text()->Err_0)
        } else if sleep.as_i32() is Err {
            Err(sleep.as_i32()->Err_0)
        } else if user.as_text() is Err {
            Err(user.as_text()->Err_0)
        } else if password.as_text() is Err {
            Err(password.as_text()->Err_0)
        } else {
            Ok(
                RabbitmqView {
                    server: server.as_text()->Ok_0,
                    port: port.as_u16()->Ok_0,
                    topic: topic.as_text()->Ok_0,
                    clientid: clientid.as_text()->Ok_0,
                    sleep: sleep.as_i32()->Ok_0,
                    user: user.as_text()->Ok_0,
                    password: password.as_text()->Ok_0,
                },
            )
        }
    }

    /// The section read from a table.
    pub open spec fn from_table(section: Node) -> Result<RabbitmqView, ConfigError> {
        RabbitmqView::from_items(
            item_of(section.entry("server"@)),
            item_of(section.entry("port"@)),
            item_of(section.entry("topic"@)),
            item_of(section.entry("clientid"@)),
            item_of(section.entry("sleep"@)),
            item_of(section.entry("user"@)),
            item_of(section.entry("password"@)),
        )
    }
}

impl Rabbitmq {
    /// Builds the section from the items at its keys.
    pub fn from_items(
        server: Item,
        port: Item,
        topic: Item,
        clientid: Item,
        sleep: Item,
        user: Item,
        password: Item,
    ) -> (r: Result<Rabbitmq, ConfigError>)
        ensures
            agrees(
                r,
                RabbitmqView::from_items(
                    server@,
                    port@,
                    topic@,
                    clientid@,
                    sleep@,
                    user@,
                    password@,
                ),
            ),
    {
        let server = match server.into_text() {
            Ok(server) => server,
            Err(e) => return Err(e),
        };
        let port: Option<u16> = match port.as_u16() {
            Ok(port) => port,
            Err(e) => return Err(e),
        };
        let topic = match topic.into_text() {
            Ok(topic) => topic,
            Err(e) => return Err(e),
        };
        let clientid = match clientid.into_text() {
            Ok(clientid) => clientid,
            Err(e) => return Err(e),
        };
        let sleep: Option<i32> = match sleep.as_i32() {
            Ok(sleep) => sleep,
            Err(e) => return Err(e),
        };
        let user = match user.into_text() {
            Ok(user) => user,
            Err(e) => return Err(e),
        };
        let password = match password.into_text() {
            Ok(password) => password,
            Err(e) => return Err(e),
        };
        Ok(Rabbitmq { server, port, topic, clientid, sleep, user, password })
    }

    /// Reads the section from a TOML table.
    pub fn from_table(section: &toml::Value) -> (r: Result<Rabbitmq, ConfigError>)
        ensures
            agrees(r, RabbitmqView::from_table(content(*section))),
    {
        Rabbitmq::from_items(
            item_at(section, "server"),
            item_at(section, "port"),
            item_at(section, "topic"),
            item_at(section, "clientid"),
            item_at(section, "sleep"),
            item_at(section, "user"),
            item_at(section, "password"),
        )
    }
}

/// The section `name` of a document: it must be there and be a table.
pub open spec fn section_of(root: Node, name: Seq<char>) -> Result<Node, ConfigError> {
    match root.entry(name) {
        None => Err(ConfigError::MissingSection),
        Some(section) => if section is Table {
            Ok(section)
        } else {
            Err(ConfigError::WrongType)
        },
    }
}

/// Finds the section `name` in a parsed document.
fn section_at<'a>(root: &'a toml::Value, name: &str) -> (r: Result<&'a toml::Value, ConfigError>)
    ensures
        match section_of(content(*root), name@) {
            Ok(section) => r matches Ok(found) && content(*found) == section,
            Err(e) => r matches Err(f) && f == e,
        },
{
    match member(root, name) {
        None => Err(ConfigError::MissingSection),
        Some(found) => {
            if found.is_table() {
                Ok(found)
            } else {
                Err(ConfigError::WrongType)
            }
        },
    }
}

impl ConfigView {
    /// The settings that a parsed document states. The `service` section is
    /// read before the `rabbitmq` section, and the first fault decides the
    /// error.
    pub open spec fn from_document(root: Node) -> Result<ConfigView, ConfigError> {
        match section_of(root, "service"@) {
            Err(e) => Err(e),
            Ok(section) => match ServiceView::from_table(section) {
                Err(e) => Err(e),
                Ok(service) => match section_of(root, "rabbitmq"@) {
                    Err(e) => Err(e),
                    Ok(section) => match RabbitmqView::from_table(section) {
                        Err(e) => Err(e),
                        Ok(rabbitmq) => Ok(ConfigView { service, rabbitmq }),
                    },
                },
            },
        }
    }

    /// The settings that the text of a settings file states.
    pub open spec fn from_text(text: Seq<char>) -> Result<ConfigView, ConfigError> {
        match toml_document(text) {
            None => Err(ConfigError::Syntax),
            Some(root) => ConfigView::from_document(root),
        }
    }

    /// The service port: the one stated, or `DEFAULT_PORT`.
    pub open spec fn port(self) -> i32 {
        match self.service.port {
            Some(port) => port,
            None => DEFAULT_PORT,
        }
    }

    /// The storage connection string: the one stated, or `DEFAULT_MONGO`.
    pub open spec fn mongo(self) -> Seq<char> {
        match self.service.mongo {
            Some(mongo) => mongo,
            None => DEFAULT_MONGO@,
        }
    }

    /// The broker host: the one stated, or `DEFAULT_HOST`.
    pub open spec fn mq_host(self) -> Seq<char> {
        match self.rabbitmq.server {
            Some(server) => server,
            None => DEFAULT_HOST@,
        }
    }

    /// The broker port: the one stated, or `DEFAULT_BROKER_PORT`.
    pub open spec fn mq_port(self) -> u16 {
        match self.rabbitmq.port {
            Some(port) => port,
            None => DEFAULT_BROKER_PORT,
        }
    }

    /// The topic: the one stated, or `DEFAULT_TOPIC`.
    pub open spec fn mq_topic(self) -> Seq<char> {
        match self.rabbitmq.topic {
            Some(topic) => topic,
            None => DEFAULT_TOPIC@,
        }
    }

    /// The client identifier: the one stated, or `DEFAULT_CLIENT_ID`.
    pub open spec fn mq_clientid(self) -> Seq<char> {
        match self.rabbitmq.clientid {
            Some(clientid) => clientid,
            None => DEFAULT_CLIENT_ID@,
        }
    }

    /// The wait interval: the one stated, or `DEFAULT_SLEEP`.
    pub open spec fn mq_sleep(self) -> i32 {
        match self.rabbitmq.sleep {
            Some(sleep) => sleep,
            None => DEFAULT_SLEEP,
        }
    }

    /// The user name: the one stated, or `DEFAULT_USER`.
    pub open spec fn mq_user(self) -> Seq<char> {
        match self.rabbitmq.user {
            Some(user) => user,
            None => DEFAULT_USER@,
        }
    }

    /// The password: the one stated, or `DEFAULT_PASSWORD`.
    pub open spec fn mq_password(self) -> Seq<char> {
        match self.rabbitmq.password {
            Some(password) => password,
            None => DEFAULT_PASSWORD@,
        }
    }
}

impl Config {
    /// The settings with the two sections as given.
    pub fn new(service: Service, rabbitmq: Rabbitmq) -> (r: Config)
        ensures
            r@ == (ConfigView { service: service@, rabbitmq: rabbitmq@ }),
    {
        Config { service, rabbitmq }
    }

    /// Reads the settings from a parsed document.
    pub fn from_document(root: &toml::Value) -> (r: Result<Config, ConfigError>)
        ensures
            agrees(r, ConfigView::from_document(content(*root))),
    {
        let service = match section_at(root, "service") {
            Ok(section) => match Service::from_table(section) {
                Ok(service) => service,
                Err(e) => return Err(e),
            },
            Err(e) => return Err(e),
        };
        let rabbitmq = match section_at(root, "rabbitmq") {
            Ok(section) => match Rabbitmq::from_table(section) {
                Ok(rabbitmq) => rabbitmq,
                Err(e) => return Err(e),
            },
            Err(e) => return Err(e),
        };
        Ok(Config { service, rabbitmq })
    }

    /// Loads the settings from the text of a settings file.
    pub fn load(text: &str) -> (r: Result<Config, ConfigError>)
        ensures
            agrees(r, ConfigView::from_text(text@)),
    {
        match parse_document(text) {
            Ok(root) => Config::from_document(&root),
            Err(_) => Err(ConfigError::Syntax),
        }
    }

    /// The service port.
    pub fn port(&self) -> (r: i32)
        ensures
            r == self@.port(),
    {
        match self.service.port {
            Some(port) => port,
            None => DEFAULT_PORT,
        }
    }

    /// The storage connection string.
    pub fn mongo(&self) -> (r: &str)
        ensures
            r@ == self@.mongo(),
    {
        match &self.service.mongo {
            Some(mongo) => mongo.as_str(),
            None => DEFAULT_MONGO,
        }
    }

    /// The broker host.
    pub fn mq_host(&self) -> (r: &str)
        ensures
            r@ == self@.mq_host(),
    {
        match &self.rabbitmq.server {
            Some(server) => server.as_str(),
            None => DEFAULT_HOST,
        }
    }

    /// The broker port.
    pub fn mq_port(&self) -> (r: u16)
        ensures
            r == self@.mq_port(),
    {
        match self.rabbitmq.port {
            Some(port) => port,
            None => DEFAULT_BROKER_PORT,
        }
    }

    /// The topic to subscribe and to publish to.
    pub fn mq_topic(&self) -> (r: &str)
        ensures
            r@ == self@.mq_topic(),
    {
        match &self.rabbitmq.topic {
            Some(topic) => topic.as_str(),
            None => DEFAULT_TOPIC,
        }
    }

    /// The client identifier.
    pub fn mq_clientid(&self) -> (r: &str)
        ensures
            r@ == self@.mq_clientid(),
    {
        match &self.rabbitmq.clientid {
            Some(clientid) => clientid.as_str(),
            None => DEFAULT_CLIENT_ID,
        }
    }

    /// The wait interval in milliseconds.
    pub fn mq_sleep(&self) -> (r: i32)
        ensures
            r == self@.mq_sleep(),
    {
        match self.rabbitmq.sleep {
            Some(sleep) => sleep,
            None => DEFAULT_SLEEP,
        }
    }

    /// The user name.
    pub fn mq_user(&self) -> (r: &str)
        ensures
            r@ == self@.mq_user(),
    {
        match &self.rabbitmq.user {
            Some(user) => user.as_str(),
            None => DEFAULT_USER,
        }
    }

    /// The password.
    pub fn mq_password(&self) -> (r: &str)
        ensures
            r@ == self@.mq_password(),
    {
        match &self.rabbitmq.password {
            Some(password) => password.as_str(),
            None => DEFAULT_PASSWORD,
        }
    }
}

/// Every setting that a settings file states is the setting that the loaded
/// settings return: where both sections are tables and each of the nine keys
/// holds a value of its setting's type, the file loads, and each getter
/// returns the value that stands in the file.
pub proof fn law_stated_values_are_kept(
    text: Seq<char>,
    root: Node,
    service: Node,
    rabbitmq: Node,
    stated: ConfigView,
)
    requires
        toml_document(text) == Some(root),
        root.entry("service"@) == Some(service),
        root.entry("rabbitmq"@) == Some(rabbitmq),
        service is Table,
        rabbitmq is Table,
        stated.service.port matches Some(port) && service.entry("port"@) == Some(
            Node::Integer(port as i64),
        ),
        stated.service.mongo matches Some(mongo) && service.entry("mongo"@) == Some(
            Node::Text(mongo),
        ),
        stated.rabbitmq.server matches Some(server) && rabbitmq.entry("server"@) == Some(
            Node::Text(server),
        ),
        stated.rabbitmq.port matches Some(port) && rabbitmq.entry("port"@) == Some(
            Node::Integer(port as i64),
        ),
        stated.rabbitmq.topic matches Some(topic) && rabbitmq.entry("topic"@) == Some(
            Node::Text(topic),
        ),
        stated.rabbitmq.clientid matches Some(clientid) && rabbitmq.entry("clientid"@) == Some(
            Node::Text(clientid),
        ),
        stated.rabbitmq.sleep matches Some(sleep) && rabbitmq.entry("sleep"@) == Some(
            Node::Integer(sleep as i64),
        ),
        stated.rabbitmq.user matches Some(user) && rabbitmq.entry("user"@) == Some(
            Node::Text(user),
        ),
        stated.rabbitmq.password matches Some(password) && rabbitmq.entry("password"@) == Some(
            Node::Text(password),
        ),
    ensures
        ConfigView::from_text(text) == Ok::<ConfigView, ConfigError>(stated),
        stated.port() == stated.service.port->Some_0,
        stated.mongo() == stated.service.mongo->Some_0,
        stated.mq_host() == stated.rabbitmq.server->Some_0,
        stated.mq_port() == stated.rabbitmq.port->Some_0,
        stated.mq_topic() == stated.rabbitmq.topic->Some_0,
        stated.mq_clientid() == stated.rabbitmq.clientid->Some_0,
        stated.mq_sleep() == stated.rabbitmq.sleep->Some_0,
        stated.mq_user() == stated.rabbitmq.user->Some_0,
        stated.mq_password() == stated.rabbitmq.password->Some_0,
{
}

/// A setting that a settings file does not state takes its default: of
/// every file that loads, each key that is missing from its section makes
/// the getter of that setting return the default.
pub proof fn law_absent_values_take_defaults(text: Seq<char>)
    requires
        ConfigView::from_text(text) is Ok,
    ensures
        ({
            let loaded = ConfigView::from_text(text)->Ok_0;
            let root = toml_document(text)->Some_0;
            let service = root.entry("service"@)->Some_0;
            let rabbitmq = root.entry("rabbitmq"@)->Some_0;
            &&& service.entry("port"@) is None ==> loaded.port() == 10086
            &&& service.entry("mongo"@) is None ==> loaded.mongo() == "mongodb://localhost:27017"@
            &&& rabbitmq.entry("server"@) is None ==> loaded.mq_host() == "127.0.0.1"@
            &&& rabbitmq.entry("port"@) is None ==> loaded.mq_port() == 1883
            &&& rabbitmq.entry("topic"@) is None ==> loaded.mq_topic() == "topic.ylz"@
            &&& rabbitmq.entry("clientid"@) is None ==> loaded.mq_clientid() == "ylz_log_viewer"@
            &&& rabbitmq.entry("sleep"@) is None ==> loaded.mq_sleep() == 200
            &&& rabbitmq.entry("user"@) is None ==> loaded.mq_user() == "ylzyx"@
            &&& rabbitmq.entry("password"@) is None ==> loaded.mq_password() == "ylzyx"@
        }),
{
}

/// A settings file whose two sections are tables without any of the nine
/// keys loads, and every setting takes its default.
pub proof fn law_silent_sections_load(text: Seq<char>, root: Node, service: Node, rabbitmq: Node)
    requires
        toml_document(text) == Some(root),
        root.entry("service"@) == Some(service),
        root.entry("rabbitmq"@) == Some(rabbitmq),
        service is Table,
        rabbitmq is Table,
        service.entry("port"@) is None,
        service.entry("mongo"@) is None,
        rabbitmq.entry("server"@) is None,
        rabbitmq.entry("port"@) is None,
        rabbitmq.entry("topic"@) is None,
        rabbitmq.entry("clientid"@) is None,
        rabbitmq.entry("sleep"@) is None,
        rabbitmq.entry("user"@) is None,
        rabbitmq.entry("password"@) is None,
    ensures
        ConfigView::from_text(text) matches Ok(loaded) && {
            &&& loaded.port() == 10086
            &&& loaded.mongo() == "mongodb://localhost:27017"@
            &&& loaded.mq_host() == "127.0.0.1"@
            &&& loaded.mq_port() == 1883
            &&& loaded.mq_topic() == "topic.ylz"@
            &&& loaded.mq_clientid() == "ylz_log_viewer"@
            &&& loaded.mq_sleep() == 200
            &&& loaded.mq_user() == "ylzyx"@
            &&& loaded.mq_password() == "ylzyx"@
        },
{
}

/// A file loads only if it is TOML with both sections: where the parser
/// rejects the text or a section is missing or no table, loading fails, and
/// with the error that names the fault.
pub proof fn law_faulty_files_are_rejected(text: Seq<char>)
    ensures
        toml_document(text) is None ==> ConfigView::from_text(text) == Err::<
            ConfigView,
            ConfigError,
        >(ConfigError::Syntax),
        toml_document(text) matches Some(root) && root.entry("service"@) is None
            ==> ConfigView::from_text(text) == Err::<ConfigView, ConfigError>(
            ConfigError::MissingSection,
        ),
        toml_document(text) matches Some(root) && root.entry("service"@) matches Some(section)
            && !(section is Table) ==> ConfigView::from_text(text) == Err::<
            ConfigView,
            ConfigError,
        >(ConfigError::WrongType),
{
}

} // verus!
