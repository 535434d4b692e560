//! Decoding and reporting of candy-machine configuration accounts: a raw account
//! buffer is parsed into a typed record, which is then rendered as labeled lines.

pub mod decode;
pub mod defaults;
pub mod encoding;
pub mod laws;
pub mod layout;
pub mod record;
pub mod report;
pub mod text;
