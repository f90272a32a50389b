//! Settings of the worker, resolved from an optional configuration file.

use vstd::prelude::*;

verus! {

/// The broker table of a configuration file. Every key may be missing.
pub struct ConfigTomlRabbitMQ {
    pub url: Option<String>,
    pub listen_queue: Option<String>,
    pub consumer_tag: Option<String>,
}

/// The publishing table of a configuration file. Every key may be missing.
pub struct ConfigTomlFileToTextJob {
    pub publisher_exchange: Option<String>,
    pub publisher_routing_key: Option<String>,
}

/// A configuration file as it was written: both tables may be missing.
pub struct ConfigToml {
    pub rabbit_mq: Option<ConfigTomlRabbitMQ>,
    pub file_to_text_job: Option<ConfigTomlFileToTextJob>,
}

/// Where results are published.
#[derive(Debug, Clone)]
pub struct FileToTextJobConfig {
    pub publisher_exchange: String,
    pub publisher_routing_key: String,
}

/// How the broker is reached and which queue is consumed.
#[derive(Debug, Clone)]
pub struct RabbitMQConfig {
    pub url: String,
    pub listen_queue: String,
    pub consumer_tag: String,
}

/// The settings the worker runs with. No setting is ever missing: one that
/// the file does not give is the empty string.
#[derive(Debug, Clone)]
pub struct AppConfig {
    pub rabbit_mq: RabbitMQConfig,
    pub file_to_text_job: FileToTextJobConfig,
}

/// The text of each publishing setting.
pub struct FileToTextJobConfigView {
    pub publisher_exchange: Seq<char>,
    pub publisher_routing_key: Seq<char>,
}

/// The text of each broker setting.
pub struct RabbitMQConfigView {
    pub url: Seq<char>,
    pub listen_queue: Seq<char>,
    pub consumer_tag: Seq<char>,
}

/// The text of every setting.
pub struct AppConfigView {
    pub rabbit_mq: RabbitMQConfigView,
    pub file_to_text_job: FileToTextJobConfigView,
}

impl View for FileToTextJobConfig {
    type V = FileToTextJobConfigView;

    open spec fn view(&self) -> FileToTextJobConfigView {
        FileToTextJobConfigView {
            publisher_exchange: self.publisher_exchange@,
            publisher_routing_key: self.publisher_routing_key@,
        }
    }
}

impl View for RabbitMQConfig {
    type V = RabbitMQConfigView;

    open spec fn view(&self) -> RabbitMQConfigView {
        RabbitMQConfigView {
            url: self.url@,
            listen_queue: self.listen_queue@,
            consumer_tag: self.consumer_tag@,
        }
    }
}

impl View for AppConfig {
    type V = AppConfigView;

    open spec fn view(&self) -> AppConfigView {
        AppConfigView { rabbit_mq: self.rabbit_mq@, file_to_text_job: self.file_to_text_job@ }
    }
}

/// The text a setting resolves to: what the file gives, else nothing.
pub open spec fn text_or_empty(setting: Option<String>) -> Seq<char> {
    match setting {
        Some(text) => text@,
        None => Seq::empty(),
    }
}

/// The broker settings that a broker table resolves to; a missing table
/// resolves like one without keys.
pub open spec fn resolved_rabbit_mq(table: Option<ConfigTomlRabbitMQ>) -> RabbitMQConfigView {
    match table {
        Some(keys) => RabbitMQConfigView {
            url: text_or_empty(keys.url),
            listen_queue: text_or_empty(keys.listen_queue),
            consumer_tag: text_or_empty(keys.consumer_tag),
        },
        None => RabbitMQConfigView {
            url: Seq::empty(),
            listen_queue: Seq::empty(),
            consumer_tag: Seq::empty(),
        },
    }
}

/// The publishing settings that a publishing table resolves to; a missing
/// table resolves like one without keys.
pub open spec fn resolved_file_to_text_job(
    table: Option<ConfigTomlFileToTextJob>,
) -> FileToTextJobConfigView {
    match table {
        Some(keys) => FileToTextJobConfigView {
            publisher_exchange: text_or_empty(keys.publisher_exchange),
            publisher_routing_key: text_or_empty(keys.publisher_routing_key),
        },
        None => FileToTextJobConfigView {
            publisher_exchange: Seq::empty(),
            publisher_routing_key: Seq::empty(),
        },
    }
}

/// The settings that a configuration file resolves to.
pub open spec fn resolved(file: ConfigToml) -> AppConfigView {
    AppConfigView {
        rabbit_mq: resolved_rabbit_mq(file.rabbit_mq),
        file_to_text_job: resolved_file_to_text_job(file.file_to_text_job),
    }
}

/// The file that stands in where none could be read: both tables present,
/// no key set.
pub open spec fn empty_file() -> ConfigToml {
    ConfigToml {
        rabbit_mq: Some(ConfigTomlRabbitMQ { url: None, listen_queue: None, consumer_tag: None }),
        file_to_text_job: Some(
            ConfigTomlFileToTextJob { publisher_exchange: None, publisher_routing_key: None },
        ),
    }
}

/// The settings the worker runs with, given the configuration file if one
/// was read and understood.
pub open spec fn loaded(file: Option<ConfigToml>) -> AppConfigView {
    match file {
        Some(file) => resolved(file),
        None => resolved(empty_file()),
    }
}

fn setting_or_empty(setting: Option<String>) -> (text: String)
    ensures
        text@ == text_or_empty(setting),
{
    match setting {
        Some(text) => text,
        None => String::new(),
    }
}

impl RabbitMQConfig {
    /// Resolves the broker table of a configuration file.
    pub fn from_table(table: Option<ConfigTomlRabbitMQ>) -> (config: RabbitMQConfig)
        ensures
            config@ == resolved_rabbit_mq(table),
    {
        match table {
            Some(keys) => RabbitMQConfig {
                url: setting_or_empty(keys.url),
                listen_queue: setting_or_empty(keys.listen_queue),
                consumer_tag: setting_or_empty(keys.consumer_tag),
            },
            None => RabbitMQConfig {
                url: String::new(),
                listen_queue: String::new(),
                consumer_tag: String::new(),
            },
        }
    }
}

impl FileToTextJobConfig {
    /// Resolves the publishing table of a configuration file.
    pub fn from_table(table: Option<ConfigTomlFileToTextJob>) -> (config: FileToTextJobConfig)
        ensures
            config@ == resolved_file_to_text_job(table),
    {
        match table {
            Some(keys) => FileToTextJobConfig {
                publisher_exchange: setting_or_empty(keys.publisher_exchange),
                publisher_routing_key: setting_or_empty(keys.publisher_routing_key),
            },
            None => FileToTextJobConfig {
                publisher_exchange: String::new(),
                publisher_routing_key: String::new(),
            },
        }
    }
}

impl AppConfig {
    /// The file that stands in where none could be read or understood.
    pub fn empty_file_content() -> (file: ConfigToml)
        ensures
            file == empty_file(),
    {
        ConfigToml {
            rabbit_mq: Some(
                ConfigTomlRabbitMQ { url: None, listen_queue: None, consumer_tag: None },
            ),
            file_to_text_job: Some(
                ConfigTomlFileToTextJob { publisher_exchange: None, publisher_routing_key: None },
            ),
        }
    }

    /// Resolves the settings from the configuration file. `file` is `None`
    /// where the file could not be read or its text is not a configuration.
    pub fn new(file: Option<ConfigToml>) -> (config: AppConfig)
        ensures
            config@ == loaded(file),
    {
        let file = match file {
            Some(file) => file,
            None => AppConfig::empty_file_content(),
        };
        AppConfig {
            rabbit_mq: RabbitMQConfig::from_table(file.rabbit_mq),
            file_to_text_job: FileToTextJobConfig::from_table(file.file_to_text_job),
        }
    }
}

/// Without a configuration file every setting is empty.
pub proof fn lemma_no_file_means_empty_settings()
    ensures
        loaded(None).rabbit_mq.url.len() == 0,
        loaded(None).rabbit_mq.listen_queue.len() == 0,
        loaded(None).rabbit_mq.consumer_tag.len() == 0,
        loaded(None).file_to_text_job.publisher_exchange.len() == 0,
        loaded(None).file_to_text_job.publisher_routing_key.len() == 0,
{
}

} // verus!
