//! Position intents: validated, immutable requests to change a trading position.

pub mod amount;
pub mod builder;
pub mod decimal;
pub mod error;
pub mod id;
pub mod intent;
pub mod policy;
pub mod ticker;
pub mod timestamp;

pub use amount::AmountSpec;
pub use builder::PositionIntentBuilder;
pub use decimal::Decimal;
pub use error::Error;
pub use id::IntentId;
pub use intent::PositionIntent;
pub use policy::UpdatePolicy;
pub use ticker::TickerSpec;
pub use timestamp::Timestamp;
