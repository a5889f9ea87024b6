//! The commands, one module each: what a command is called, how it is
//! declared, what it decides and what it replies.

pub mod capybara;
pub mod eval;
pub mod info;
pub mod join;
pub mod leave;
pub mod me;
pub mod play;
pub mod queue;
pub mod resume;
pub mod seek;
pub mod skip;
pub mod status;
pub mod stop;

pub use capybara::Capybara;
pub use eval::Eval;
pub use info::Info;
pub use join::Join;
pub use leave::Leave;
pub use me::Me;
pub use play::Play;
pub use queue::Queue;
pub use resume::{Pause, Resume};
pub use seek::Seek;
pub use skip::Skip;
pub use status::Status;
pub use stop::Stop;
