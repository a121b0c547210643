use chess_core::attack_tables::{
    get_bishop_attack_table, get_king_attack_table, get_knight_attack_table, get_pawn_attack_table,
    get_queen_attack_table, get_rook_attack_table,
};
use chess_core::bitboard::Bitboard;
use chess_core::definitions::{
    char_to_piece, opposite_color, square_from_string, Color, Move, MoveTypes, Piece, PieceType, SearchContext,
    Square,
};
use chess_core::keys::{get_random_u32_number, get_random_u64_number, ZobristKeys};
use chess_core::move_generator::{MoveGenerator, MoveIterator};
use chess_core::perft::perft;
use chess_core::position::Position;
use chess_core::repetition_table::RepetitionTable;
use chess_core::occupancy::move_fits_check;
use chess_core::search::{should_stop, allocate_time, find_random_move, legal_moves, pick_move, uci_score, Searcher};
use chess_core::transposition_table::{HashFlag, TranspositionTable, INFINITY, MATE_BOUND, UNKNOWN_SCORE};

const START: &str = "rnbqkbnr/pppppppp/8/8/8/8/PPPPPPPP/RNBQKBNR w KQkq - 0 1";
const KIWIPETE: &str = "r3k2r/p1ppqpb1/bn2pnp1/3PN3/1p2P3/2N2Q1p/PPPBBPPP/R3K2R w KQkq - 0 1";

fn pos(fen: &str, keys: &ZobristKeys) -> Position {
    Position::new_from_fen(fen, keys).expect("valid FEN")
}

fn count(fen: &str, depth: u8) -> u64 {
    let keys = ZobristKeys::new();
    let ctx = SearchContext::new();
    perft(&pos(fen, &keys), depth, &keys, &ctx)
}

fn uci(m: &Move) -> String {
    String::from_utf8(m.to_uci()).unwrap()
}

fn play(p: &mut Position, text: &str, keys: &ZobristKeys) {
    let m = p.parse_move(text, keys).expect("legal move");
    assert!(p.make_move(&m, keys));
}

#[test]
fn zobrist() {
    let keys = ZobristKeys::new();
    let p = pos("r4rk1/1pp1qppp/p1np1n2/2b1p1B1/2B1P1b1/P1NP1N2/1PP1QPPP/R4RK1 w - - 0 10", &keys);
    assert_eq!(p.zobrist_hash, p.make_zobrist_hash(&keys));
}

#[test]
fn test() {
    let keys = ZobristKeys::new();
    let p = Position::new_from_start_pos(&keys);
    let ctx = SearchContext::new();
    let mut gene = MoveGenerator::new(&p, MoveTypes::All, false, 0);
    let m = gene.next_move(&p, &ctx);
    println!("{:?}", m);
    assert!(m.is_some());
}

#[test]
fn perft_start_position() {
    assert_eq!(count(START, 1), 20);
    assert_eq!(count(START, 2), 400);
    assert_eq!(count(START, 3), 8902);
    assert_eq!(count(START, 4), 197281);
}

#[test]
fn perft_kiwipete() {
    assert_eq!(count(KIWIPETE, 1), 48);
    assert_eq!(count(KIWIPETE, 2), 2039);
    assert_eq!(count(KIWIPETE, 3), 97862);
}

#[test]
fn perft_rook_endgame() {
    let fen = "8/2p5/3p4/KP5r/1R3p1k/8/4P1P1/8 w - - 0 1";
    assert_eq!(count(fen, 1), 14);
    assert_eq!(count(fen, 2), 191);
    assert_eq!(count(fen, 3), 2812);
    assert_eq!(count(fen, 4), 43238);
}

#[test]
fn perft_promotions_and_castling() {
    let fen = "r3k2r/Pppp1ppp/1b3nbN/nP6/BBP1P3/q4N2/Pp1P2PP/R2Q1RK1 w kq - 0 1";
    assert_eq!(count(fen, 1), 6);
    assert_eq!(count(fen, 2), 264);
    assert_eq!(count(fen, 3), 9467);
}

#[test]
fn perft_discovered_checks() {
    let fen = "rnbq1k1r/pp1Pbppp/2p5/8/2B5/8/PPP1NnPP/RNBQK2R w KQ - 1 8";
    assert_eq!(count(fen, 1), 44);
    assert_eq!(count(fen, 2), 1486);
    assert_eq!(count(fen, 3), 62379);
}

#[test]
fn occupancies_partition_after_moves() {
    let keys = ZobristKeys::new();
    let mut p = pos(KIWIPETE, &keys);
    for text in ["e2a6", "b4c3", "e1g1", "c3d2"] {
        play(&mut p, text, &keys);
        let mut white = 0u64;
        let mut black = 0u64;
        for i in 0..12 {
            let b = p.get_bitboard(i).to_u64();
            for j in 0..12 {
                if i != j {
                    assert_eq!(b & p.get_bitboard(j).to_u64(), 0);
                }
            }
            if i < 6 {
                white |= b;
            } else {
                black |= b;
            }
        }
        assert_eq!(p.white_occupancies.to_u64(), white);
        assert_eq!(p.black_occupancies.to_u64(), black);
        assert_eq!(white & black, 0);
        assert_eq!(p.all_occupancies.to_u64(), white | black);
    }
}

#[test]
fn incremental_hash_matches_recomputation() {
    let keys = ZobristKeys::new();
    let mut p = pos(KIWIPETE, &keys);
    for text in ["e1c1", "h3g2", "d5e6", "g2h1q", "e6f7"] {
        play(&mut p, text, &keys);
        assert_eq!(p.zobrist_hash, p.make_zobrist_hash(&keys));
    }
}

#[test]
fn legal_move_leaves_mover_out_of_check() {
    let keys = ZobristKeys::new();
    let p = pos("4k3/8/8/8/8/8/4r3/4K3 w - - 0 1", &keys);
    let mut it = MoveIterator::new(p, MoveTypes::All, false);
    let mut legal = 0;
    while let Some(m) = it.next() {
        let mut c = p;
        if c.make_move(&m, &keys) {
            legal += 1;
            assert!(!c.is_in_check(Color::White));
        }
    }
    assert_eq!(legal, 3);
}

#[test]
fn en_passant_square_follows_double_push() {
    let keys = ZobristKeys::new();
    let mut p = Position::new_from_start_pos(&keys);
    play(&mut p, "e2e4", &keys);
    assert_eq!(p.enpassant_square, Square::e3);
    play(&mut p, "g8f6", &keys);
    assert_eq!(p.enpassant_square, Square::NoSquare);
    play(&mut p, "e4e5", &keys);
    play(&mut p, "d7d5", &keys);
    assert_eq!(p.enpassant_square, Square::d6);
    play(&mut p, "e5d6", &keys);
    assert_eq!(p.get_piece_bitboard(Piece::BlackPawn).get_bit_sq(Square::d5), false);
}

#[test]
fn castling_rights_only_shrink() {
    let keys = ZobristKeys::new();
    let mut p = pos("r3k2r/8/8/8/8/8/8/R3K2R w KQkq - 0 1", &keys);
    let mut rights = p.castling_ability;
    for text in ["h1h2", "a8a7", "e1d1", "e8g8"] {
        play(&mut p, text, &keys);
        assert_eq!(p.castling_ability & !rights, 0);
        rights = p.castling_ability;
    }
    assert_eq!(p.castling_ability, 0);
    assert!(p.get_piece_bitboard(Piece::BlackRook).get_bit_sq(Square::f8));
}

#[test]
fn evaluation_is_antisymmetric() {
    let keys = ZobristKeys::new();
    let a = pos("4k3/8/8/8/8/8/4P3/4K3 w - - 0 1", &keys);
    let b = pos("4k3/4p3/8/8/8/8/8/4K3 w - - 0 1", &keys);
    assert_eq!(a.evaluate(), -b.evaluate());
    assert_eq!(Position::new_from_start_pos(&keys).evaluate(), 0);
    let c = pos("4k3/8/8/8/8/8/4P3/4K3 b - - 0 1", &keys);
    assert_eq!(c.evaluate(), -a.evaluate());
}

fn searcher(fen: &str) -> Searcher {
    let keys = ZobristKeys::new();
    let p = pos(fen, &keys);
    let mut history = RepetitionTable::new();
    history.insert(p.zobrist_hash);
    Searcher::new(p, TranspositionTable::with_entries(1 << 16), None, history, keys)
}

#[test]
fn mate_in_one_is_found() {
    let mut s = searcher("6k1/5ppp/8/8/8/8/8/R5K1 w - - 0 1");
    let r = s.search(2);
    assert_eq!(uci(&r.best_move), "a1a8");
    assert!(r.score > MATE_BOUND);
    assert_eq!(uci_score(r.score), (true, 1));
}

#[test]
fn depth_one_returns_an_opening_move() {
    let mut s = searcher(START);
    let r = s.search(1);
    let keys = ZobristKeys::new();
    let p = Position::new_from_start_pos(&keys);
    let mut it = MoveIterator::new(p, MoveTypes::All, false);
    let mut found = 0;
    while let Some(m) = it.next() {
        if m.equals(&r.best_move) {
            found += 1;
        }
    }
    assert_eq!(found, 1);
    assert_eq!(r.depth, 1);
}

#[test]
fn repetition_scores_zero() {
    let keys = ZobristKeys::new();
    let mut p = Position::new_from_start_pos(&keys);
    let mut history = RepetitionTable::new();
    history.insert(p.zobrist_hash);
    for text in ["g1f3", "g8f6", "f3g1", "f6g8"] {
        play(&mut p, text, &keys);
        history.insert(p.zobrist_hash);
    }
    assert!(history.is_now_in_threefold_repetition());
    let mut s = Searcher::new(p, TranspositionTable::with_entries(1 << 16), None, history, ZobristKeys::new());
    assert_eq!(s.negamax(&p, 3, -INFINITY, INFINITY, 1), 0);
}

#[test]
fn transposition_bounds() {
    let mut tt = TranspositionTable::with_entries(1024);
    let m = Move::null();
    tt.record(7, 100, 5, HashFlag::Alpha, 0, m);
    assert_eq!(tt.probe_score(7, 3, 150, 200, 0), 150);
    assert_eq!(tt.probe_score(7, 3, 50, 200, 0), UNKNOWN_SCORE);
    assert_eq!(tt.probe_score(7, 6, 150, 200, 0), UNKNOWN_SCORE);
    assert_eq!(tt.probe_score(8, 3, 150, 200, 0), UNKNOWN_SCORE);
    tt.record(9, 300, 4, HashFlag::Beta, 0, m);
    assert_eq!(tt.probe_score(9, 4, 100, 250, 0), 250);
    assert_eq!(tt.probe_score(9, 4, 100, 350, 0), UNKNOWN_SCORE);
    tt.record(10, 48500, 2, HashFlag::Exact, 3, m);
    assert_eq!(tt.probe_score(10, 1, -100, 100, 3), 48500);
    assert_eq!(tt.probe_score(10, 1, -100, 100, 1), 48502);
    // an exact entry is kept against later results
    tt.record(10, 5, 9, HashFlag::Beta, 0, m);
    assert_eq!(tt.probe_score(10, 1, -100, 100, 3), 48500);
    tt.clear();
    assert_eq!(tt.probe_score(10, 1, -100, 100, 3), UNKNOWN_SCORE);
}

#[test]
fn best_move_probe() {
    let mut tt = TranspositionTable::with_entries(16);
    let m = Move::new(52, 36, Piece::WhitePawn, Piece::NoPiece, false, true, false, false);
    assert!(tt.probe_best_move(3).equals(&Move::null()));
    tt.record(3, 0, 1, HashFlag::Exact, 0, m);
    assert!(tt.probe_best_move(3).equals(&m));
}

#[test]
fn repetition_table_stack() {
    let mut r = RepetitionTable::new();
    r.insert(1);
    r.insert(2);
    assert!(!r.is_now_in_threefold_repetition());
    r.insert(1);
    assert!(r.is_now_in_threefold_repetition());
    r.move_back();
    assert!(!r.is_now_in_threefold_repetition());
    r.clear();
    assert!(!r.is_now_in_threefold_repetition());
}

#[test]
fn fen_errors() {
    let keys = ZobristKeys::new();
    assert!(Position::new_from_fen("rnbqkbnr/ppppXppp/8/8/8/8/PPPPPPPP/RNBQKBNR w KQkq - 0 1", &keys).is_none());
    assert!(Position::new_from_fen("rnbqkbnr/pppppppp/8/8/8/8/PPPPPPPP/RNBQKBNR", &keys).is_none());
    assert!(Position::new_from_fen("", &keys).is_none());
    assert!(Position::new_from_fen("8/8/8/8/8/8/8/8/K w - - 0 1", &keys).is_none());
    assert!(Position::new_from_fen("4k3/8/8/8/8/8/8/4K3 w - - x 1", &keys).is_none());
    assert!(Position::new_from_fen("0 w", &keys).is_none());
    assert!(Position::new_from_fen("8 w", &keys).is_none());
    assert!(Position::new_from_fen("4k3/8/8/8/8/8/8/4K2 w - - 0 1", &keys).is_none());
    assert!(Position::new_from_fen("4k3/8/8/8/8/8/8/4K4 w - - 0 1", &keys).is_none());
    assert!(Position::new_from_fen("4k3/8/8/8/8/8/8/4K3 w - z9 0 1", &keys).is_none());
    assert!(Position::new_from_fen("4k3/8/8/8/8/8/8/4K3 w - e33 0 1", &keys).is_none());
    let p = pos("4k3/8/8/8/8/8/8/4K3 b", &keys);
    assert_eq!(p.active_player, Color::Black);
    assert_eq!(p.half_moves, 0);
    assert_eq!(p.full_moves, 1);
    assert_eq!(p.castling_ability, 0);
}

#[test]
fn start_position_is_exact() {
    let keys = ZobristKeys::new();
    let p = Position::new_from_start_pos(&keys);
    let q = pos(START, &keys);
    assert_eq!(p.white_occupancies.to_u64(), 0xFFFF000000000000);
    assert_eq!(p.black_occupancies.to_u64(), 0xFFFF);
    for i in 0..12 {
        assert_eq!(p.get_bitboard(i).to_u64(), q.get_bitboard(i).to_u64());
    }
    assert_eq!(p.zobrist_hash, q.zobrist_hash);
    assert_eq!(p.castling_ability, 15);
    assert_eq!(p.full_moves, 1);
}

#[test]
fn fen_fields() {
    let keys = ZobristKeys::new();
    let p = pos("rnbqkbnr/pppp1ppp/8/4p3/4P3/8/PPPP1PPP/RNBQKBNR w Kq e6 3 12", &keys);
    assert_eq!(p.castling_ability, 1 | 8);
    assert_eq!(p.enpassant_square, Square::e6);
    assert_eq!(p.half_moves, 3);
    assert_eq!(p.full_moves, 12);
    assert_eq!(p.king_position(Color::White), 60);
    assert_eq!(p.king_position(Color::Black), 4);
    assert_eq!(p.get_color_bitboard(Color::White).count(), 16);
}

#[test]
fn attacks_and_check() {
    let keys = ZobristKeys::new();
    let p = pos("4k3/8/8/8/8/8/4r3/4K3 w - - 0 1", &keys);
    assert!(p.is_in_check(Color::White));
    assert!(!p.is_in_check(Color::Black));
    assert!(p.is_square_attacked(51, Color::Black));
    assert!(!p.is_square_attacked(0, Color::White));
}

#[test]
fn attack_sets() {
    assert_eq!(get_knight_attack_table(0).count(), 2);
    assert_eq!(get_king_attack_table(36).count(), 8);
    assert_eq!(get_pawn_attack_table(52, Color::White).to_u64(), (1u64 << 43) | (1u64 << 45));
    assert_eq!(get_pawn_attack_table(12, Color::Black).to_u64(), (1u64 << 19) | (1u64 << 21));
    assert_eq!(get_rook_attack_table(0, Bitboard::from_u64(0)).count(), 14);
    assert_eq!(get_rook_attack_table(0, Bitboard::from_u64(1 << 2)).count(), 9);
    assert_eq!(get_bishop_attack_table(27, Bitboard::from_u64(0)).count(), 13);
    assert_eq!(get_queen_attack_table(27, Bitboard::from_u64(0)).count(), 27);
}

#[test]
fn bitboard_operations() {
    let mut b = Bitboard::new();
    assert!(b.is_empty());
    b.set_bit(5);
    b.set_bit_sq(Square::h1);
    assert!(b.get_bit(5) && b.get_bit(63) && b.is_not_empty());
    assert_eq!(b.count(), 2);
    assert_eq!(b.least_significant(), 5);
    assert_eq!(b.extract_bit(), Some(5));
    assert_eq!(b.extract_bit(), Some(63));
    assert_eq!(b.extract_bit(), None);
    let x = Bitboard::from_u64(0b1100);
    let y = Bitboard::from_u64(0b1010);
    assert_eq!(x.and(y).to_u64(), 0b1000);
    assert_eq!(x.or(y).to_u64(), 0b1110);
    assert_eq!(x.xor(y).to_u64(), 0b0110);
    assert_eq!(x.and_u64(4).to_u64(), 4);
    assert_eq!(x.or_u64(1).to_u64(), 0b1101);
    assert_eq!(x.not().to_u64(), !0b1100u64);
    let mut z = Bitboard::from_u64(u64::MAX);
    z.unset_bit(0);
    z.unset_bit_sq(Square::a7);
    assert_eq!(z.to_u64(), u64::MAX - 1 - (1 << 8));
    assert_eq!(Bitboard::from_u64(0).least_significant(), 64);
}

#[test]
fn random_numbers() {
    assert_eq!(get_random_u32_number(1), 270369);
    let (k, s) = get_random_u64_number(1);
    assert_eq!(s, get_random_u32_number(get_random_u32_number(get_random_u32_number(270369))));
    assert_ne!(k, 0);
    let keys = ZobristKeys::new();
    assert_eq!(keys.piece.len(), 768);
    assert_eq!(keys.side, get_random_u64_number(4084590338).0);
}

#[test]
fn definitions_helpers() {
    assert_eq!(square_from_string("e4"), Square::e4);
    assert_eq!(square_from_string("z9"), Square::NoSquare);
    assert_eq!(char_to_piece('q'), Some(Piece::BlackQueen));
    assert_eq!(char_to_piece('x'), None);
    assert_eq!(opposite_color(Color::White), Color::Black);
    assert!(Piece::WhiteQueen.is_slider());
    assert!(!Piece::BlackKnight.is_slider());
    assert_eq!(Piece::BlackRook.piece_type(), PieceType::Rook);
    let m = Move::new(12, 4, Piece::WhitePawn, Piece::WhiteQueen, false, false, false, false);
    assert_eq!(uci(&m), "e7e8q");
    assert_eq!(m.score, u16::MAX);
}

#[test]
fn uci_scores() {
    assert_eq!(uci_score(48999), (true, 1));
    assert_eq!(uci_score(-48998), (true, -2));
    assert_eq!(uci_score(120), (false, 120));
}

#[test]
fn quiescence_generator_yields_noisy_moves() {
    let keys = ZobristKeys::new();
    let p = pos(KIWIPETE, &keys);
    let mut it = MoveIterator::new(p, MoveTypes::Quiescence, true);
    let mut n = 0;
    let mut last = u16::MAX;
    while let Some(m) = it.next() {
        assert!(m.is_capture || m.promotion != Piece::NoPiece);
        assert!(m.score <= last);
        last = m.score;
        n += 1;
    }
    assert_eq!(n, 8);
}

#[test]
fn unmake_restores_position() {
    let keys = ZobristKeys::new();
    let start = pos(KIWIPETE, &keys);
    for text in ["e1g1", "e1c1", "d5e6", "e5f7", "a2a4", "f3f6"] {
        let m = start.parse_move(text, &keys).expect("legal move");
        let undo = start.undo_info(&m);
        let mut p = start;
        assert!(p.make_move(&m, &keys));
        assert_ne!(p.zobrist_hash, start.zobrist_hash);
        p.unmake_move(&m, &undo, &keys);
        for i in 0..12 {
            assert_eq!(p.get_bitboard(i).to_u64(), start.get_bitboard(i).to_u64());
        }
        assert_eq!(p.white_occupancies.to_u64(), start.white_occupancies.to_u64());
        assert_eq!(p.black_occupancies.to_u64(), start.black_occupancies.to_u64());
        assert_eq!(p.all_occupancies.to_u64(), start.all_occupancies.to_u64());
        assert_eq!(p.zobrist_hash, start.zobrist_hash);
        assert_eq!(p.castling_ability, start.castling_ability);
        assert_eq!(p.active_player, start.active_player);
        assert_eq!(p.enpassant_square, start.enpassant_square);
    }
}

#[test]
fn unmake_restores_en_passant_and_promotion() {
    let keys = ZobristKeys::new();
    let start = pos("4k3/1P6/8/3pP3/8/8/8/4K3 w - d6 0 1", &keys);
    for text in ["e5d6", "b7b8q", "b7b8n"] {
        let m = start.parse_move(text, &keys).expect("legal move");
        let undo = start.undo_info(&m);
        let mut p = start;
        p.make_move(&m, &keys);
        assert_eq!(p.zobrist_hash, p.make_zobrist_hash(&keys));
        p.unmake_move(&m, &undo, &keys);
        for i in 0..12 {
            assert_eq!(p.get_bitboard(i).to_u64(), start.get_bitboard(i).to_u64());
        }
        assert_eq!(p.zobrist_hash, start.zobrist_hash);
    }
}

#[test]
fn time_allocation() {
    assert_eq!(allocate_time(-1, 0, 30, -1), -1);
    assert_eq!(allocate_time(60000, 1000, 30, -1), 2000 + 1000 - 100);
    assert_eq!(allocate_time(1500, 800, 30, -1), 300);
    assert_eq!(allocate_time(1500, 0, 30, -1), 50);
    assert_eq!(allocate_time(60000, 0, 30, 700), 700);
}

#[test]
fn random_and_listed_moves() {
    let keys = ZobristKeys::new();
    let p = Position::new_from_start_pos(&keys);
    let moves = legal_moves(&p, &keys);
    assert_eq!(moves.len(), 20);
    let m = find_random_move(&p, &keys).expect("a move");
    assert!(moves.iter().any(|x| x.equals(&m)));
    assert!(pick_move(&moves, 21).unwrap().equals(&moves[1]));
    assert!(pick_move(&Vec::new(), 3).is_none());
    let mated = pos("R5k1/5ppp/8/8/8/8/8/6K1 b - - 0 1", &keys);
    assert!(find_random_move(&mated, &keys).is_none());
}

#[test]
fn node_limit_stops_search() {
    let mut s = searcher(KIWIPETE);
    s.node_limit = 1;
    let r = s.search(6);
    assert!(s.stopping);
    assert!(r.depth < 6);
    assert!(!r.reached_max_ply);
}

#[test]
fn principal_variation_is_reported() {
    let mut s = searcher(START);
    let r = s.search(3);
    assert_eq!(r.depth, 3);
    assert_eq!(r.reports.len(), 3);
    assert!(r.reports[2].pv.len() >= 1);
    assert!(r.reports[2].pv.len() <= 3);
    assert_eq!(r.reports[0].depth, 1);
    assert_eq!(r.reports[2].depth, 3);
}

#[test]
fn fit_check_rejects_inconsistent_moves() {
    let keys = ZobristKeys::new();
    let p = Position::new_from_start_pos(&keys);
    let good = Move::new(52, 36, Piece::WhitePawn, Piece::NoPiece, false, true, false, false);
    assert!(move_fits_check(&p, &good));
    let no_piece = Move::new(36, 28, Piece::WhitePawn, Piece::NoPiece, false, false, false, false);
    assert!(!move_fits_check(&p, &no_piece));
    let onto_own = Move::new(62, 52, Piece::WhiteKnight, Piece::NoPiece, false, false, false, false);
    assert!(!move_fits_check(&p, &onto_own));
    let wrong_side = Move::new(12, 28, Piece::BlackPawn, Piece::NoPiece, false, true, false, false);
    assert!(!move_fits_check(&p, &wrong_side));
}

#[test]
fn stop_decision() {
    assert!(should_stop(0, 0, -1, true));
    assert!(!should_stop(5000, 0, -1, false));
    assert!(should_stop(1500, 1000, 500, false));
    assert!(!should_stop(1499, 1000, 500, false));
    assert!(should_stop(900, 1000, 0, false));
}
