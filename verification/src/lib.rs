//! The decision logic of an astrological CPU scheduler: planetary aspects, natal charts of
//! processes, completion-time horoscopes, the system's daily horoscope and time slices.
pub mod aspects;
pub mod bignum;
pub mod birth_chart;
pub mod dispatch;
pub mod forecast;
pub mod planets;
pub mod predictions;
pub mod priority;
pub mod proc_stat;
pub mod tasks;
pub mod text;
pub mod time;
