//! Verified core of a command-line password-derivation client.
//!
//! The library holds the logic that can be checked: localized message
//! tables, language selection, parsing of the configuration file and of
//! the repeat count, and resolution of method names through the backend.

mod config;
mod en_us;
mod error;
mod languages;
mod methods;
mod pt_br;
mod repeat;
mod text;

pub use config::Config;
pub use config::ConfigV;
pub use config::default_config_text;
pub use config::parse_config;
pub use config::spec_parse_config;
pub use en_us::EnUs;
pub use error::Error;
pub use languages::Languages;
pub use languages::Messages;
pub use languages::is_en_us;
pub use languages::is_pt_br;
pub use languages::is_table_for;
pub use languages::lang_of_config;
pub use languages::lang_of_env;
pub use languages::lang_of_name;
pub use methods::known_method;
pub use methods::resolve_method;
pub use pt_br::PtBr;
pub use repeat::all_digits;
pub use repeat::digits_value;
pub use repeat::is_digit;
pub use repeat::parse_repeat;
pub use repeat::spec_parse_repeat;
pub use text::str_eq;
