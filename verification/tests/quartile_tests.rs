use box_plot_chart::quartile::{Num, Quartile};
use box_plot_chart::ChartError;

#[test]
fn even_test() {
    let quartile = Quartile::new(&[48, 52, 57, 64, 72, 76, 77, 81, 85, 88]).unwrap();

    assert_eq!(quartile.iqr(), 24);
    assert_eq!(quartile.median(), Num { halves: 148 }); // 74.0
    assert_eq!(quartile.lower_median(), 57);
    assert_eq!(quartile.upper_median(), 81);
    assert_eq!(quartile.lower_fence(), Num { halves: 42 }); // 21.0
    assert_eq!(quartile.upper_fence(), Num { halves: 234 }); // 117.0
    assert_eq!(quartile.min_before_lower_fence(), 48);
    assert_eq!(quartile.max_before_upper_fence(), 88);
    assert_eq!(quartile.lower_outliers(), Vec::<i64>::new());
    assert_eq!(quartile.upper_outliers(), Vec::<i64>::new());
    assert_eq!(quartile.min_value(), 48);
    assert_eq!(quartile.max_value(), 88);
}

#[test]
fn odd_test_with_outliers() {
    let quartile =
        Quartile::new(&[5, 6, 48, 52, 57, 61, 64, 72, 76, 77, 81, 85, 88]).unwrap();

    assert_eq!(quartile.iqr(), 29);
    assert_eq!(quartile.median(), Num { halves: 128 }); // 64.0
    assert_eq!(quartile.lower_median(), 52);
    assert_eq!(quartile.upper_median(), 81);
    assert_eq!(quartile.lower_fence(), Num { halves: 17 }); // 8.5
    assert_eq!(quartile.upper_fence(), Num { halves: 249 }); // 124.5
    assert_eq!(quartile.min_before_lower_fence(), 48);
    assert_eq!(quartile.max_before_upper_fence(), 88);
    assert_eq!(quartile.lower_outliers(), vec![5, 6]);
    assert_eq!(quartile.upper_outliers(), Vec::<i64>::new());
    assert_eq!(quartile.min_value(), 5);
    assert_eq!(quartile.max_value(), 88);
}

#[test]
fn too_few_values_is_an_error() {
    let result = Quartile::new(&[1, 2]);
    assert_eq!(result.err().unwrap(), ChartError::InsufficientData);
    assert_eq!(
        ChartError::InsufficientData.message(),
        "Minimum of 3 values needed for a quartile range"
    );
    assert!(Quartile::new(&[]).is_err());
    assert!(Quartile::new(&[1, 2, 3]).is_ok());
}

#[test]
fn medians_are_ordered() {
    // unsorted input with repeats and negatives
    let inputs: Vec<Vec<i64>> = vec![
        vec![3, 1, 2],
        vec![-5, 10, 0, 7, 7, -2],
        vec![100, 1, 1, 1, 1, 1, 99],
        vec![9, 8, 7, 6, 5, 4, 3, 2, 1, 0],
    ];
    for values in inputs {
        let q = Quartile::new(&values).unwrap();
        assert!(2 * q.lower_median() <= q.median().halves);
        assert!(q.median().halves <= 2 * q.upper_median());
    }
}

#[test]
fn whisker_ends_are_input_values() {
    let values: Vec<i64> = vec![5, 6, 48, 52, 57, 61, 64, 72, 76, 77, 81, 85, 88];
    let q = Quartile::new(&values).unwrap();
    assert!(values.contains(&q.min_before_lower_fence()));
    assert!(values.contains(&q.max_before_upper_fence()));
}

#[test]
fn outliers_partition_the_input() {
    let values: Vec<i64> = vec![5, 6, 48, 52, 57, 61, 64, 72, 76, 77, 81, 85, 88, 400];
    let q = Quartile::new(&values).unwrap();
    let lower = q.lower_outliers();
    let upper = q.upper_outliers();
    for v in lower.iter() {
        assert!(2 * v < q.lower_fence().halves);
    }
    for v in upper.iter() {
        assert!(2 * v > q.upper_fence().halves);
    }
    // every sample value is between the whisker ends or an outlier
    let body_len = values.len() - lower.len() - upper.len();
    let mut sorted = values.clone();
    sorted.sort();
    let body = &sorted[lower.len()..lower.len() + body_len];
    let mut rebuilt: Vec<i64> = Vec::new();
    rebuilt.extend_from_slice(&lower);
    rebuilt.extend_from_slice(body);
    rebuilt.extend_from_slice(&upper);
    assert_eq!(rebuilt, sorted);
    assert_eq!(q.min_before_lower_fence(), body[0]);
    assert_eq!(q.max_before_upper_fence(), body[body.len() - 1]);
}

#[test]
fn from_value_doubles() {
    assert_eq!(Num::from_value(24), Num { halves: 48 });
}

#[test]
fn extreme_values_stay_exact() {
    let m = box_plot_chart::MAX_ABS_VALUE;
    let q = Quartile::new(&[-m, 0, m]).unwrap();
    assert_eq!(q.median(), Num { halves: 0 });
    assert_eq!(q.lower_median(), -m);
    assert_eq!(q.upper_median(), m);
    assert_eq!(q.iqr(), 2 * m);
    // fences: -m - 3m = -4m and m + 3m = 4m, in half-units
    assert_eq!(q.lower_fence(), Num { halves: -8 * m });
    assert_eq!(q.upper_fence(), Num { halves: 8 * m });
    assert_eq!(q.min_value(), -m);
    assert_eq!(q.max_value(), m);
}
