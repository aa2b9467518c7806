pub mod error;
pub mod util;
pub mod window;

pub use error::WinApiError;
pub use util::RGBA;
