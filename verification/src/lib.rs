pub mod codec;
pub mod directory;
pub mod json;
pub mod session;
pub mod strutil;

pub use directory::{Server, ServerLookupError, find_server_by_prefix};

pub use codec::{escape_quotes, unescape_newlines, encode_envelope, decode_frame, Decoded};
