pub mod client;
pub mod datamap;
pub mod errors;
pub mod five_minute;
pub mod json;
pub mod latest;
pub mod mapping;
pub mod numbers;
pub mod one_hour;
pub mod timeserie;

pub use errors::Error;
pub use five_minute::Prices;
pub use latest::{Latest, Price};
pub use mapping::Item;
pub use timeserie::{AvgPrice, Timeserie};
