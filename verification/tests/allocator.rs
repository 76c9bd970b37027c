use exec_circuit::field::{fp_add, fp_inv_countdown, fp_mul, fp_of, rlc, FIELD_MODULUS};
use exec_circuit::grid::Grid;
use exec_circuit::param::MAX_STEP_HEIGHT;

#[test]
fn field_arithmetic_wraps_at_the_modulus() {
    assert_eq!(fp_add(FIELD_MODULUS - 1, 1), 0);
    assert_eq!(fp_add(1, 2), 3);
    assert_eq!(fp_mul(3, 5), 15);
    assert_eq!(fp_of(FIELD_MODULUS), 0);
    assert_eq!(fp_of(FIELD_MODULUS + 7), 7);
    // (p - 1)^2 = 1 mod p
    assert_eq!(fp_mul(FIELD_MODULUS - 1, FIELD_MODULUS - 1), 1);
}

#[test]
fn countdown_inverses_invert() {
    for v in 1u64..21 {
        let inv = fp_inv_countdown(v);
        assert_eq!(fp_mul(v, inv), 1, "inverse of {v}");
    }
    assert_eq!(fp_inv_countdown(0), 0);
}

#[test]
fn rlc_is_the_powers_of_the_challenge() {
    // 3 + 4*10 + 5*100
    assert_eq!(rlc(&vec![3, 4, 5], 10), 543);
    assert_eq!(rlc(&vec![], 10), 0);
    assert_eq!(rlc(&vec![7], 10), 7);
}

/// The countdown track reaches zero exactly on block-start rows, for every
/// block height from one up to the maximum, over pseudo-random height
/// sequences.
#[test]
fn countdown_zero_exactly_on_start_rows_over_random_heights() {
    let mut seed: u64 = 0x2545_F491_4F6C_DD1D;
    for _round in 0..20 {
        let mut heights: Vec<usize> = Vec::new();
        let mut total: usize = 0;
        for _ in 0..30 {
            seed = seed.wrapping_mul(6364136223846793005).wrapping_add(1442695040888963407);
            let h = ((seed >> 33) as usize % MAX_STEP_HEIGHT) + 1;
            heights.push(h);
            total += h;
        }
        let mut grid = Grid::new(total + 1);
        let mut offset: usize = 0;
        let mut starts: Vec<usize> = Vec::new();
        for h in heights.iter() {
            grid.assign_q_step(offset, *h);
            starts.push(offset);
            offset += *h;
        }
        for r in 0..offset {
            let is_start = starts.contains(&r);
            assert_eq!(grid.q_step[r] == 1, is_start, "row {r}");
            assert_eq!(grid.countdown[r] == 0, is_start, "row {r}");
            assert!(grid.usable[r]);
            if grid.countdown[r] != 0 {
                // the materialized inverse really inverts
                assert_eq!(fp_mul(grid.countdown[r], grid.countdown_inv[r]), 1);
            } else {
                assert_eq!(grid.countdown_inv[r], 0);
            }
        }
    }
}

#[test]
fn every_single_height_behaves() {
    for h in 1..=MAX_STEP_HEIGHT {
        let mut grid = Grid::new(h + 1);
        grid.assign_q_step(0, h);
        assert_eq!(grid.q_step[0], 1);
        assert_eq!(grid.countdown[0], 0);
        for i in 1..h {
            assert_eq!(grid.q_step[i], 0);
            assert_eq!(grid.countdown[i], (h - i) as u64);
        }
    }
}
