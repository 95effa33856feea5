//! The error taxonomy of the config store.  Every failure carries a
//! human-readable message that embeds the underlying cause; a missing
//! config file is *not* an error.

use vstd::prelude::*;
use vstd::string::*;

verus! {

/// One failure category per fallible step of the store.
#[derive(Debug)]
pub enum ConfigError {
    /// The file exists but could not be read.
    Read(String),
    /// The file content is not valid JSON of the expected shape.
    Parse(String),
    /// The parent directory could not be created.
    DirCreate(String),
    /// The configuration could not be serialized.
    Serialize(String),
    /// The serialized content could not be written.
    Write(String),
}

impl ConfigError {
    /// The message carried by this error.
    pub open spec fn spec_message(&self) -> Seq<char> {
        match *self {
            ConfigError::Read(ref m) => m@,
            ConfigError::Parse(ref m) => m@,
            ConfigError::DirCreate(ref m) => m@,
            ConfigError::Serialize(ref m) => m@,
            ConfigError::Write(ref m) => m@,
        }
    }

    /// Read access to the carried message.
    pub fn message(&self) -> (r: &str)
        ensures
            r@ == self.spec_message(),
    {
        match self {
            ConfigError::Read(m) => m.as_str(),
            ConfigError::Parse(m) => m.as_str(),
            ConfigError::DirCreate(m) => m.as_str(),
            ConfigError::Serialize(m) => m.as_str(),
            ConfigError::Write(m) => m.as_str(),
        }
    }

    /// A read failure, with the underlying cause in the message.
    pub fn read_error(cause: &str) -> (r: ConfigError)
        ensures
            r matches ConfigError::Read(m) && m@ == "Failed to read config: "@ + cause@,
    {
        let mut m = String::from_str("Failed to read config: ");
        m.append(cause);
        ConfigError::Read(m)
    }

    /// A parse failure, with the underlying cause in the message.
    pub fn parse_error(cause: &str) -> (r: ConfigError)
        ensures
            r matches ConfigError::Parse(m) && m@ == "Failed to parse config: "@ + cause@,
    {
        let mut m = String::from_str("Failed to parse config: ");
        m.append(cause);
        ConfigError::Parse(m)
    }

    /// A directory-creation failure, with the underlying cause.
    pub fn dir_create_error(cause: &str) -> (r: ConfigError)
        ensures
            r matches ConfigError::DirCreate(m) && m@ == "Failed to create config dir: "@ + cause@,
    {
        let mut m = String::from_str("Failed to create config dir: ");
        m.append(cause);
        ConfigError::DirCreate(m)
    }

    /// A serialization failure, with the underlying cause.
    pub fn serialize_error(cause: &str) -> (r: ConfigError)
        ensures
            r matches ConfigError::Serialize(m) && m@ == "Failed to serialize config: "@ + cause@,
    {
        let mut m = String::from_str("Failed to serialize config: ");
        m.append(cause);
        ConfigError::Serialize(m)
    }

    /// A write failure, with the underlying cause in the message.
    pub fn write_error(cause: &str) -> (r: ConfigError)
        ensures
            r matches ConfigError::Write(m) && m@ == "Failed to write config: "@ + cause@,
    {
        let mut m = String::from_str("Failed to write config: ");
        m.append(cause);
        ConfigError::Write(m)
    }
}

} // verus!
