pub mod actuator;
pub mod dispatch;
pub mod fault;
pub mod guard;
pub mod messaging;
pub mod sensor;
pub mod telemetry;
pub mod units;
