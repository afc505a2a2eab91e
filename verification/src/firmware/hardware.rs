pub mod canfd_config;
pub mod fmac;
