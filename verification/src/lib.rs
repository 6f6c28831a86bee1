pub mod channel;
pub mod date;
pub mod dispatch;
pub mod model;
pub mod values;
