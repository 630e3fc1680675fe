pub mod decimal;
pub mod item;
pub mod lock_store;
pub mod locker;
