//! Five-card poker hand evaluation: a pattern classifier over sorted hands and a
//! perfect-hash evaluator over packed cards.

pub mod card;
pub mod fast_evaluator;
pub mod match_evaluator;
pub mod flush_table;
pub mod hash_adjust_table;
pub mod hash_value_table;
pub mod unique5_table;
