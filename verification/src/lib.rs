//! Writer for a tag-value query-string protocol: typed values are appended to
//! one output buffer as `name=value` parameters joined by `\n&`, with dotted
//! name prefixes composed by nesting, and map/list naming rules that honour a
//! "flatten" mode.  A second module renders 128 bits of entropy as a canonical
//! version-4 UUID string.

pub mod encode;
pub mod idempotency_token;
pub mod query;

pub use query::FloatValue;
pub use query::Number;
pub use query::QueryListWriter;
pub use query::QueryMapWriter;
pub use query::QueryValueWriter;
pub use query::QueryWriter;
