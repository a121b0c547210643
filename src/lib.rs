pub mod bitboard;
pub mod definitions;
pub mod keys;
pub mod attack_tables;
pub mod position;
pub mod make_move;
pub mod fen;
pub mod move_generator;
pub mod transposition_table;
pub mod repetition_table;
pub mod evaluation;
pub mod search;
pub mod perft;
pub mod uci;
pub mod laws;
pub mod occupancy;
