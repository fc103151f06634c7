pub mod configure;
