use box_plot_chart::axis::plan_axis;
use box_plot_chart::layout::{chart_height, chart_width, slot_center_x, value_to_y_num};
use box_plot_chart::scene::{render_chart, PathCmd, PathVerb};
use box_plot_chart::{process_chart_data, ChartData, ChartError, ItemData};

#[test]
fn axis_plan_for_hundred_unit_span() {
    // span of exactly 100 units: interval is 10^2 / 20 = 5 units (500 centi)
    let plan = plan_axis(0, 100);
    assert_eq!(plan.interval_c, 500);
    assert_eq!(plan.dps, 0);
    assert_eq!(plan.k_lo, 0);
    assert_eq!(plan.k_hi, 20);
    assert!(plan.k_hi - plan.k_lo >= 20);
    // both snapped bounds are exact multiples of the interval
    assert_eq!((plan.k_lo * plan.interval_c) % plan.interval_c, 0);
    assert_eq!((plan.k_hi * plan.interval_c) % plan.interval_c, 0);
}

#[test]
fn axis_plan_small_span_has_fractional_interval() {
    // span 1: interval is 10^0 / 20 = 0.05 units, printed with 2 decimals
    let plan = plan_axis(0, 1);
    assert_eq!(plan.interval_c, 5);
    assert_eq!(plan.dps, 2);
    assert_eq!(plan.k_lo, 0);
    assert_eq!(plan.k_hi, 20);
    // span 15: interval is 10^2 / 20 = 5 units
    let plan = plan_axis(0, 15);
    assert_eq!(plan.interval_c, 500);
    assert_eq!(plan.dps, 0);
    // span 10: interval is 10^1 / 20 = 0.5 units, one decimal
    let plan = plan_axis(0, 10);
    assert_eq!(plan.interval_c, 50);
    assert_eq!(plan.dps, 1);
}

#[test]
fn axis_plan_degenerate_span_still_spans() {
    // all values equal: fall back to the smallest interval, bounds apart
    let plan = plan_axis(5, 5);
    assert_eq!(plan.interval_c, 5);
    assert!(plan.k_lo < plan.k_hi);
    assert_eq!(plan.k_lo, 100);
    assert_eq!(plan.k_hi, 101);
}

#[test]
fn axis_plan_negative_values_snap_down() {
    // range [-7, 93]: span 100, interval 5; floor(-700 / 500) = -2
    let plan = plan_axis(-7, 93);
    assert_eq!(plan.interval_c, 500);
    assert_eq!(plan.k_lo, -2);
    assert_eq!(plan.k_hi, 19);
    assert!(plan.k_lo * plan.interval_c <= -700);
    assert!(plan.k_hi * plan.interval_c >= 9300);
}

#[test]
fn canvas_grows_linearly_with_series() {
    assert_eq!(chart_height(), 520);
    assert_eq!(chart_width(1), 220);
    assert_eq!(chart_width(2), 280);
    assert_eq!(chart_width(3), 340);
    assert_eq!(chart_width(2) - chart_width(1), chart_width(3) - chart_width(2));
    assert_eq!(slot_center_x(0), 110);
    assert_eq!(slot_center_x(1), 170);
}

#[test]
fn value_to_pixel_is_decreasing() {
    // fixed axis: range [45.0, 90.0] in centi-units, denominator 4500
    let ys: Vec<i64> = vec![
        value_to_y_num(2 * 48, 4500, 4500),
        value_to_y_num(2 * 57, 4500, 4500),
        value_to_y_num(2 * 74, 4500, 4500),
        value_to_y_num(2 * 88, 4500, 4500),
    ];
    for w in ys.windows(2) {
        assert!(w[0] > w[1]);
    }
    // the bottom of the range maps to the bottom of the plot: 440 pixels
    assert_eq!(value_to_y_num(2 * 45, 4500, 4500), 440 * 4500);
    // the top of the range maps to the top of the plot: 40 pixels
    assert_eq!(value_to_y_num(2 * 90, 4500, 4500), 40 * 4500);
}

#[test]
fn process_rejects_empty_and_short_series() {
    let empty = ChartData { title: String::from("t"), units: String::from("u"), data: vec![] };
    assert_eq!(process_chart_data(&empty).err().unwrap(), ChartError::InsufficientData);

    let short = ChartData {
        title: String::from("t"),
        units: String::from("u"),
        data: vec![
            ItemData { key: String::from("a"), values: vec![1, 2, 3] },
            ItemData { key: String::from("b"), values: vec![1, 2] },
        ],
    };
    assert_eq!(process_chart_data(&short).err().unwrap(), ChartError::InsufficientData);
}

#[test]
fn process_plans_over_all_series() {
    let cd = ChartData {
        title: String::from("Latency"),
        units: String::from("ms"),
        data: vec![
            ItemData { key: String::from("a"), values: vec![48, 52, 57] },
            ItemData { key: String::from("b"), values: vec![60, 70, 88] },
        ],
    };
    let rd = process_chart_data(&cd).unwrap();
    // combined range [48, 88]: span 40, interval 5 units, range [45.0, 90.0]
    assert_eq!(rd.y_axis_interval, 500);
    assert_eq!(rd.y_axis_dps, 0);
    assert_eq!(rd.y_axis_range, (4500, 9000));
    assert_eq!(rd.quartile_tuples.len(), 2);
    assert_eq!(rd.quartile_tuples[0].0, "a");
    assert_eq!(rd.quartile_tuples[1].0, "b");
    assert_eq!(rd.styles.len(), 6);
    assert_eq!(
        rd.styles[0],
        ".box-plot{fill:none;stroke:rgb(0,0,0);stroke-width:1;}"
    );
}

#[test]
fn one_series_scene_end_to_end() {
    let cd = ChartData {
        title: String::from("Title"),
        units: String::from("ms"),
        data: vec![ItemData {
            key: String::from("a"),
            values: vec![48, 52, 57, 64, 72, 76, 77, 81, 85, 88],
        }],
    };
    let rd = process_chart_data(&cd).unwrap();
    let scene = render_chart(&rd);

    assert_eq!(scene.width, 220);
    assert_eq!(scene.height, 520);
    assert_eq!(scene.styles.len(), 6);
    assert_eq!(scene.axis, vec![(80, 40), (80, 440), (140, 440)]);

    // exactly one box-plot group, no outlier markers, one 16-command path
    assert_eq!(scene.box_plots.len(), 1);
    assert_eq!(scene.box_plots[0].outliers.len(), 0);
    assert_eq!(scene.box_plots[0].path.len(), 16);

    // range [45.0, 90.0] in centi, 9 intervals of 5.0, so 10 tick labels
    assert_eq!(scene.y_labels.len(), 10);
    assert_eq!(scene.y_labels[0].value_c, 4500);
    assert_eq!(scene.y_labels[9].value_c, 9000);
    assert_eq!(scene.y_labels[0].dps, 0);
    assert_eq!(scene.y_labels[0].x, 70);
    assert_eq!(scene.y_labels[0].y, 445);

    assert_eq!(scene.x_labels.len(), 1);
    assert_eq!(scene.x_labels[0].text, "a");
    assert_eq!(scene.x_labels[0].x, 110);
    assert_eq!(scene.x_labels[0].y, 455);

    assert_eq!(scene.title.text, "Title (ms)");
    assert_eq!(scene.title.x, 110);
    assert_eq!(scene.title.y, 20);

    // the path starts at the upper whisker cap: x 110 - 7.5, y of value 88
    let first = scene.box_plots[0].path[0];
    assert_eq!(
        first,
        PathCmd { verb: PathVerb::MoveTo, x2: 205, y_num: 260_000, y_den: 4500 }
    );
    // and every vertical coordinate shares the denominator 4500
    for cmd in scene.box_plots[0].path.iter() {
        assert_eq!(cmd.y_den, 4500);
    }
}

#[test]
fn outlier_markers_in_scene() {
    let cd = ChartData {
        title: String::from("T"),
        units: String::from("u"),
        data: vec![ItemData {
            key: String::from("a"),
            values: vec![5, 6, 48, 52, 57, 61, 64, 72, 76, 77, 81, 85, 88],
        }],
    };
    let rd = process_chart_data(&cd).unwrap();
    let scene = render_chart(&rd);
    // the two low outliers 5 and 6 get one circle each, radius 2
    assert_eq!(scene.box_plots[0].outliers.len(), 2);
    for mark in scene.box_plots[0].outliers.iter() {
        assert_eq!(mark.cx, 110);
        assert_eq!(mark.radius, 2);
    }
    // markers at different heights for different values
    assert_ne!(
        scene.box_plots[0].outliers[0].cy_num,
        scene.box_plots[0].outliers[1].cy_num
    );
}
