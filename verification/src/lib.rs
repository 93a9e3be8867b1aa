pub mod clock;
pub mod decimal;
pub mod errors;
pub mod exercises;
pub mod id_laws;
pub mod import;
pub mod models;
pub mod node_id;
pub mod normalize;
pub mod placement;
pub mod rng;
pub mod text;
