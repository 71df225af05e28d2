use minesweeper::{BoardError, Minesweeper, OpenResult, Position};
use minesweeper::random::random_range;

#[test]
fn mines_generation() {
    let ms = Minesweeper::new(4, 4, 2).unwrap();
    println!("{:?}", ms.mine_positions());
}

#[test]
fn draw_map() {
    let ms = Minesweeper::new(8, 5, 5).unwrap();

    println!("Minas: {:?}", ms.mine_positions());

    for row in 0..ms.height() {
        let mut line = String::new();

        for col in 0..ms.width() {
            let pos: Position = (col, row);
            match ms.open(&pos) {
                OpenResult::Mine => {
                    line.push_str(&format!(" # "));
                }
                OpenResult::Near(q) => {
                    line.push_str(&format!(" {} ", q));
                }
            }
        }

        println!("{}", line);
    }
}

fn assert_mine_set_well_formed(ms: &Minesweeper, mine_count: usize) {
    let mines = ms.mine_positions();
    assert_eq!(mines.len(), mine_count);
    for &(x, y) in mines.iter() {
        assert!(x < ms.width());
        assert!(y < ms.height());
    }
    for i in 0..mines.len() {
        for j in 0..i {
            assert_ne!(mines[i], mines[j]);
        }
    }
}

#[test]
fn new_places_exactly_the_requested_mines() {
    for &(w, h, m) in &[(4usize, 4usize, 0usize), (4, 4, 7), (4, 4, 16), (1, 1, 1), (3, 2, 6)] {
        let ms = Minesweeper::new(w, h, m).unwrap();
        assert_eq!(ms.width(), w);
        assert_eq!(ms.height(), h);
        assert_mine_set_well_formed(&ms, m);
    }
}

#[test]
fn new_on_full_board_mines_every_cell() {
    let ms = Minesweeper::new(2, 2, 4).unwrap();
    assert_mine_set_well_formed(&ms, 4);
    let mut mines = ms.mine_positions().clone();
    mines.sort();
    assert_eq!(mines, vec![(0, 0), (0, 1), (1, 0), (1, 1)]);
    for x in 0..2 {
        for y in 0..2 {
            assert_eq!(ms.open(&(x, y)), OpenResult::Mine);
        }
    }
}

#[test]
fn new_rejects_too_many_mines() {
    assert!(matches!(Minesweeper::new(3, 3, 10), Err(BoardError::InvalidConfiguration)));
    assert!(matches!(Minesweeper::new(0, 5, 1), Err(BoardError::InvalidConfiguration)));
    assert!(matches!(Minesweeper::new(1, 1, 2), Err(BoardError::InvalidConfiguration)));
    let empty = Minesweeper::new(0, 5, 0).unwrap();
    assert_eq!(empty.mine_positions().len(), 0);
}

#[test]
fn with_mines_accepts_any_valid_set() {
    // Adjacent mines, a full grid, and an empty set are all legal.
    assert!(Minesweeper::with_mines(3, 3, vec![(0, 0), (0, 1), (1, 0)]).is_some());
    assert!(Minesweeper::with_mines(2, 2, vec![(0, 0), (0, 1), (1, 0), (1, 1)]).is_some());
    assert!(Minesweeper::with_mines(5, 4, vec![]).is_some());
}

#[test]
fn with_mines_rejects_out_of_range_or_duplicate() {
    assert!(Minesweeper::with_mines(3, 3, vec![(3, 0)]).is_none());
    assert!(Minesweeper::with_mines(3, 3, vec![(0, 3)]).is_none());
    assert!(Minesweeper::with_mines(3, 3, vec![(1, 1), (2, 0), (1, 1)]).is_none());
}

#[test]
fn scenario_three_by_three() {
    let ms = Minesweeper::with_mines(3, 3, vec![(0, 0), (2, 2)]).unwrap();
    assert_eq!(ms.open(&(1, 1)), OpenResult::Near(2));
    assert_eq!(ms.open(&(0, 0)), OpenResult::Mine);
    assert_eq!(ms.open(&(2, 0)), OpenResult::Near(0));
    assert_eq!(ms.open(&(1, 2)), OpenResult::Near(1));
}

#[test]
fn every_mine_reports_mine() {
    let fixed = Minesweeper::with_mines(4, 3, vec![(0, 0), (3, 2), (1, 1)]).unwrap();
    for &pos in fixed.mine_positions().clone().iter() {
        assert_eq!(fixed.open(&pos), OpenResult::Mine);
    }
    let random = Minesweeper::new(6, 6, 12).unwrap();
    for &pos in random.mine_positions().clone().iter() {
        assert_eq!(random.open(&pos), OpenResult::Mine);
    }
}

#[test]
fn neighbor_counts_are_exact() {
    let ms = Minesweeper::with_mines(4, 3, vec![(1, 1), (2, 1), (0, 2)]).unwrap();
    assert_eq!(ms.open(&(0, 0)), OpenResult::Near(1));
    assert_eq!(ms.open(&(1, 0)), OpenResult::Near(2));
    assert_eq!(ms.open(&(2, 0)), OpenResult::Near(2));
    assert_eq!(ms.open(&(3, 0)), OpenResult::Near(1));
    assert_eq!(ms.open(&(0, 1)), OpenResult::Near(2));
    assert_eq!(ms.open(&(3, 1)), OpenResult::Near(1));
    assert_eq!(ms.open(&(1, 2)), OpenResult::Near(3));
    assert_eq!(ms.open(&(2, 2)), OpenResult::Near(2));
    assert_eq!(ms.open(&(3, 2)), OpenResult::Near(1));
}

#[test]
fn boundary_cells_consider_fewer_neighbors() {
    // All cells but the probed one are mined, so the count equals the
    // number of in-range neighbors: 3 at a corner, 5 on an edge, 8 inside.
    let mut all_but_corner: Vec<Position> = Vec::new();
    let mut all_but_edge: Vec<Position> = Vec::new();
    let mut all_but_center: Vec<Position> = Vec::new();
    for x in 0..3 {
        for y in 0..3 {
            if (x, y) != (0, 0) {
                all_but_corner.push((x, y));
            }
            if (x, y) != (1, 0) {
                all_but_edge.push((x, y));
            }
            if (x, y) != (1, 1) {
                all_but_center.push((x, y));
            }
        }
    }
    let corner = Minesweeper::with_mines(3, 3, all_but_corner).unwrap();
    assert_eq!(corner.open(&(0, 0)), OpenResult::Near(3));
    let edge = Minesweeper::with_mines(3, 3, all_but_edge).unwrap();
    assert_eq!(edge.open(&(1, 0)), OpenResult::Near(5));
    let center = Minesweeper::with_mines(3, 3, all_but_center).unwrap();
    assert_eq!(center.open(&(1, 1)), OpenResult::Near(8));
}

#[test]
fn open_out_of_range_counts_in_range_neighbors_only() {
    let ms = Minesweeper::with_mines(2, 2, vec![(1, 1)]).unwrap();
    assert_eq!(ms.open(&(2, 2)), OpenResult::Near(1));
    assert_eq!(ms.open(&(5, 5)), OpenResult::Near(0));
    assert_eq!(ms.open(&(2, 0)), OpenResult::Near(1));
}

#[test]
fn open_is_idempotent() {
    let fixed = Minesweeper::with_mines(3, 3, vec![(0, 0), (2, 2)]).unwrap();
    let random = Minesweeper::new(5, 5, 10).unwrap();
    for x in 0..5 {
        for y in 0..5 {
            let first = fixed.open(&(x, y));
            assert_eq!(fixed.open(&(x, y)), first);
            assert_eq!(fixed.open(&(x, y)), first);
            let first_random = random.open(&(x, y));
            assert_eq!(random.open(&(x, y)), first_random);
            assert_eq!(random.open(&(x, y)), first_random);
        }
    }
}

#[test]
fn random_range_stays_in_bounds() {
    assert_eq!(random_range(3, 4), 3);
    for _ in 0..100 {
        let r = random_range(2, 7);
        assert!((2..7).contains(&r));
    }
}
