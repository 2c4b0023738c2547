//! Client-side logic for the HelixDB graph-database service: request URLs,
//! header planning, and interpretation of server responses.

pub mod client;
pub mod decimal;
pub mod error;
pub mod record;
pub mod response;

pub use client::Header;
pub use client::HelixDB;
pub use client::RequestPlan;
pub use decimal::u16_to_decimal;
pub use error::HelixError;
pub use record::FieldDef;
pub use record::augment_record_fields;
pub use response::interpret_response;
pub use response::remote_error_details;
