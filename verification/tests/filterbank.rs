use wakeword::config::MfccConfig;
use wakeword::filterbank::{create_mel_filterbank, triangle_weight_at, Weight};

fn weight(num: usize, den: usize) -> Weight {
    Weight { num, den }
}

#[test]
fn a_triangle_rises_to_its_center_and_falls_to_its_right_bin() {
    let row: Vec<Weight> = (8..=21).map(|bin| triangle_weight_at(10, 14, 20, bin)).collect();
    assert_eq!(
        row,
        vec![
            weight(0, 1),
            weight(0, 1),
            weight(0, 4),
            weight(1, 4),
            weight(2, 4),
            weight(3, 4),
            weight(6, 6),
            weight(5, 6),
            weight(4, 6),
            weight(3, 6),
            weight(2, 6),
            weight(1, 6),
            weight(0, 1),
            weight(0, 1),
        ]
    );
}

#[test]
fn a_triangle_without_a_rising_side_starts_at_its_peak() {
    assert_eq!(triangle_weight_at(5, 5, 8, 4), weight(0, 1));
    assert_eq!(triangle_weight_at(5, 5, 8, 5), weight(3, 3));
    assert_eq!(triangle_weight_at(5, 5, 8, 7), weight(1, 3));
}

#[test]
fn a_triangle_without_a_falling_side_never_reaches_one() {
    assert_eq!(triangle_weight_at(5, 8, 8, 7), weight(2, 3));
    assert_eq!(triangle_weight_at(5, 8, 8, 8), weight(0, 1));
}

#[test]
fn weights_are_fractions_of_one() {
    for start in 0..6 {
        for center in 0..6 {
            for end in 0..6 {
                for bin in 0..8 {
                    let w = triangle_weight_at(start, center, end, bin);
                    assert!(w.den > 0);
                    assert!(w.num <= w.den);
                }
            }
        }
    }
}

#[test]
fn the_filterbank_has_a_row_per_filter_and_a_column_per_bin() {
    let config = MfccConfig { frame_size: 16, hop_size: 4, num_mfcc: 2, num_filters: 3, ..MfccConfig::default() };
    let bank = create_mel_filterbank(&config, &vec![1, 3, 4, 7, 9]);
    assert_eq!(bank.len(), 3);
    let zero = weight(0, 1);
    assert_eq!(
        bank[0],
        vec![zero, weight(0, 2), weight(1, 2), weight(1, 1), zero, zero, zero, zero]
    );
    assert_eq!(
        bank[1],
        vec![zero, zero, zero, weight(0, 1), weight(3, 3), weight(2, 3), weight(1, 3), zero]
    );
    // the last filter runs past the half spectrum and is cut off there
    assert_eq!(
        bank[2],
        vec![zero, zero, zero, zero, weight(0, 3), weight(1, 3), weight(2, 3), weight(2, 2)]
    );
}

#[test]
fn the_default_filterbank_is_26_by_256() {
    let config = MfccConfig::default();
    let points: Vec<usize> = (0..28).map(|i| 9 + 9 * i).collect();
    let bank = create_mel_filterbank(&config, &points);
    assert_eq!(bank.len(), 26);
    for (filter, row) in bank.iter().enumerate() {
        assert_eq!(row.len(), 256);
        for (bin, w) in row.iter().enumerate() {
            assert_eq!(
                *w,
                triangle_weight_at(points[filter], points[filter + 1], points[filter + 2], bin)
            );
        }
        assert_eq!(row[points[filter + 1]], weight(9, 9));
        assert_eq!(row[points[filter]].num, 0);
        assert_eq!(row[points[filter + 2]], weight(0, 1));
    }
}

#[test]
fn a_filterbank_without_filters_is_empty() {
    let config = MfccConfig { num_mfcc: 0, num_filters: 0, ..MfccConfig::default() };
    assert!(create_mel_filterbank(&config, &vec![9, 200]).is_empty());
}
