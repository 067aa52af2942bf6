//! Word generation for constructed languages: a catalog of IPA phonemes, phoneme
//! inventories, and generators compiled from phonotactic patterns such as `CVC`.

pub mod phone;
pub mod gen;
mod trusted;
