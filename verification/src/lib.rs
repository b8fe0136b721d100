pub mod behavior;
pub mod error;
pub mod external;
pub mod mode;
pub mod subtitle;
pub mod text;
pub mod utils;
pub mod video;
