//! What one update of a running task does.
pub mod exchange_wares;
pub mod harvest_gas;
pub mod mine_asteroid;
pub mod request_access;
