pub mod environment;
pub mod fornax;
pub mod lark;
pub mod process;
pub mod version;
