pub mod image_data;
pub mod record;
pub mod record_cache;
pub mod sync;
