//! The service's settings, resolved once from the optional texts that the
//! environment gives.

use vstd::prelude::*;
use vstd::string::*;
use crate::text::{decimal, decimal_text, given_text, join, parse_u16, parse_u64, parsed_up_to};

verus! {

/// The number of bytes in one megabyte of the upload ceiling.
pub const BYTES_PER_MEGABYTE: u64 = 1048576;

/// Why the settings could not be resolved.
#[derive(Clone, Copy, Debug, PartialEq, Eq, Structural)]
pub enum ConfigError {
    /// The port is not a number from 0 to 65535.
    InvalidPort,
    /// The upload ceiling is not a number of megabytes that fits 64 bits.
    InvalidMaxFileSize,
    /// The upload ceiling in bytes does not fit 64 bits.
    MaxFileSizeTooLarge,
}

/// The resolved settings.
#[derive(Clone, Debug)]
pub struct Config {
    bind_address: String,
    port: u16,
    max_file_size: u64,
    base_url: String,
}

/// The settings as a mathematical value.
pub struct ConfigView {
    /// The address to listen on.
    pub bind_address: Seq<char>,
    /// The port to listen on.
    pub port: u16,
    /// The upload ceiling in bytes.
    pub max_file_size: nat,
    /// The base of the links that replies hold.
    pub base_url: Seq<char>,
}

impl View for Config {
    type V = ConfigView;

    closed spec fn view(&self) -> ConfigView {
        ConfigView {
            bind_address: self.bind_address@,
            port: self.port,
            max_file_size: self.max_file_size as nat,
            base_url: self.base_url@,
        }
    }
}

/// The given text, or the default where none is given.
pub open spec fn text_or(given: Option<Seq<char>>, default: Seq<char>) -> Seq<char> {
    match given {
        Some(text) => text,
        None => default,
    }
}

/// The settings that the four optional texts resolve to. The address
/// defaults to `0.0.0.0`, the port to `8080`, the upload ceiling to `100`
/// megabytes, and the base of the links to `http://localhost:` followed by
/// the port as it was given.
pub open spec fn configured(
    bind_address: Option<Seq<char>>,
    port: Option<Seq<char>>,
    max_file_size: Option<Seq<char>>,
    base_url: Option<Seq<char>>,
) -> Result<ConfigView, ConfigError> {
    let port_text = text_or(port, "8080"@);
    match parsed_up_to(port_text, u16::MAX as nat) {
        None => Err(ConfigError::InvalidPort),
        Some(port_number) => match parsed_up_to(text_or(max_file_size, "100"@), u64::MAX as nat) {
            None => Err(ConfigError::InvalidMaxFileSize),
            Some(megabytes) => if megabytes * BYTES_PER_MEGABYTE > u64::MAX {
                Err(ConfigError::MaxFileSizeTooLarge)
            } else {
                Ok(
                    ConfigView {
                        bind_address: text_or(bind_address, "0.0.0.0"@),
                        port: port_number as u16,
                        max_file_size: megabytes * (BYTES_PER_MEGABYTE as nat),
                        base_url: text_or(base_url, "http://localhost:"@ + port_text),
                    },
                )
            },
        },
    }
}

/// The address and port to listen on, as one text.
pub open spec fn listen_address_of(c: ConfigView) -> Seq<char> {
    c.bind_address + ":"@ + decimal(c.port as nat)
}

fn owned_or(given: Option<&str>, default: &str) -> (r: String)
    ensures
        r@ == text_or(given_text(given), default@),
{
    match given {
        Some(text) => text.to_owned(),
        None => default.to_owned(),
    }
}

impl Config {
    /// Resolves the settings from the texts of `BIND_ADDRESS`, `PORT`,
    /// `MAX_FILE_SIZE` (in megabytes) and `BASE_URL`, each of which may be
    /// missing.
    pub fn from_values(
        bind_address: Option<&str>,
        port: Option<&str>,
        max_file_size: Option<&str>,
        base_url: Option<&str>,
    ) -> (r: Result<Config, ConfigError>)
        ensures
            match r {
                Ok(c) => configured(
                    given_text(bind_address),
                    given_text(port),
                    given_text(max_file_size),
                    given_text(base_url),
                ) == Ok::<ConfigView, ConfigError>(c@),
                Err(e) => configured(
                    given_text(bind_address),
                    given_text(port),
                    given_text(max_file_size),
                    given_text(base_url),
                ) == Err::<ConfigView, ConfigError>(e),
            },
    {
        let port_text = owned_or(port, "8080");
        let port_number = match parse_u16(port_text.as_str()) {
            Some(n) => n,
            None => {
                return Err(ConfigError::InvalidPort);
            },
        };
        let size_text = owned_or(max_file_size, "100");
        let megabytes = match parse_u64(size_text.as_str()) {
            Some(n) => n,
            None => {
                return Err(ConfigError::InvalidMaxFileSize);
            },
        };
        let bytes = match megabytes.checked_mul(BYTES_PER_MEGABYTE) {
            Some(n) => n,
            None => {
                return Err(ConfigError::MaxFileSizeTooLarge);
            },
        };
        let fallback = join("http://localhost:", port_text.as_str());
        Ok(
            Config {
                bind_address: owned_or(bind_address, "0.0.0.0"),
                port: port_number,
                max_file_size: bytes,
                base_url: owned_or(base_url, fallback.as_str()),
            },
        )
    }

    /// The address to listen on.
    pub fn bind_address(&self) -> (text: &str)
        ensures
            text@ == self@.bind_address,
    {
        self.bind_address.as_str()
    }

    /// The port to listen on.
    pub fn port(&self) -> (n: u16)
        ensures
            n == self@.port,
    {
        self.port
    }

    /// The upload ceiling in bytes.
    pub fn max_file_size(&self) -> (n: u64)
        ensures
            n == self@.max_file_size,
    {
        self.max_file_size
    }

    /// The base of the links that replies hold.
    pub fn base_url(&self) -> (text: &str)
        ensures
            text@ == self@.base_url,
    {
        self.base_url.as_str()
    }

    /// The address and port to listen on, as one text.
    pub fn listen_address(&self) -> (text: String)
        ensures
            text@ == listen_address_of(self@),
    {
        let mut text = join(self.bind_address.as_str(), ":");
        text.append(decimal_text(self.port as u64).as_str());
        text
    }
}

} // verus!
