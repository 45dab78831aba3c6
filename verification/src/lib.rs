//! Conversion of YAML parse and serialize failures into one structured,
//! typed application error.
//!
//! The library normalizes every failure raised by the YAML engine to a single
//! error kind ("Invalid YAML data", HTTP status 400). The resulting
//! [`YamlError`] carries a stable string code, the status, the kind
//! description, a message (caller-supplied, or defaulted to the raw failure's
//! textual rendering), and a structured context map.

pub mod context;
pub mod errors;
pub mod laws;
pub mod results;
pub mod value;

pub use context::ContextMap;
pub use errors::YamlError;
pub use errors::YamlErrorConverter;
pub use results::convert_yaml_result;
pub use results::convert_yaml_result_with_context;
pub use results::convert_yaml_result_with_message;
pub use value::ContextValue;
pub use value::ValueModel;
