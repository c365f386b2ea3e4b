pub mod config;
pub mod cookie;
pub mod decimal;
pub mod genshin;
pub mod hoyo;
pub mod hsr;
pub mod run;
pub mod zzz;
