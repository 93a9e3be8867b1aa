pub mod footnotes;
pub mod translators;
