//! Control core of a heater controller: the temperature target engine, the
//! actuation decision of the control loop, the liveness watchdog, the
//! persisted settings record and the operator's menu.
pub mod heater;
pub mod menu;
pub mod storage;
pub mod temperature;
pub mod tools;
pub mod watchdog;
