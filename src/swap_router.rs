pub mod errors;
pub mod router;
pub mod utils;
