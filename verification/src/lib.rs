//! Energy-monitor state aggregation: readings, bounded history, running
//! maxima and derived indicators, with every quantity held in thousandths.

pub mod config;
pub mod decimal;
pub mod display;
pub mod duration;
pub mod history;
pub mod homeassistant;
pub mod maxima;
pub mod metrics;
pub mod reading;
pub mod scheduler;
pub mod scientific;
pub mod sensor;
pub mod state;
pub mod text;
