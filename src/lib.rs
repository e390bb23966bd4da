pub mod plugin;
pub mod codec;
pub mod dispatch;
pub mod assemble;
pub mod logsets;
pub mod page;
