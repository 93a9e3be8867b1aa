pub mod ayah_chain;
pub mod ayah_sequence;
pub mod exercise_data;
pub mod find_mistake;
pub mod full_verse_input;
pub mod grammar;
pub mod generators;
pub mod graph;
pub mod mcq;
pub mod memorization;
pub mod memorization_ayah;
pub mod pos_tagging;
pub mod reverse_cloze;
pub mod service;
pub mod translation;
pub mod translate_phrase;
pub mod types;
pub mod validator;
pub mod verse_words;
