use histogram::geometry::{category_x, compute_plot_area, PlotArea};

#[test]
fn plot_area_invariant_holds_for_valid_input() {
    let p = compute_plot_area(800, 400, 60, 15, 45, 25).unwrap();
    assert_eq!(p.left, 60);
    assert_eq!(p.top, 45);
    assert_eq!(p.width, 800 - 60 - 15);
    assert_eq!(p.height, 400 - 45 - 25);
    assert!(p.width > 0 && p.height > 0);
}

#[test]
fn plot_area_invariant_holds_for_overridden_insets() {
    let p = compute_plot_area(300, 200, 10, 20, 30, 40).unwrap();
    assert_eq!(p.width, 270);
    assert_eq!(p.height, 130);
}

#[test]
fn plot_area_rejects_canvas_smaller_than_padding() {
    let r = compute_plot_area(50, 50, 60, 15, 45, 25);
    assert!(r.is_err());
    let e = r.unwrap_err();
    assert_eq!(e.width, 50 - 60 - 15);
    assert_eq!(e.height, 50 - 45 - 25);
}

#[test]
fn plot_area_rejects_zero_width_exactly() {
    assert!(compute_plot_area(75, 400, 60, 15, 45, 25).is_err());
    assert!(compute_plot_area(76, 400, 60, 15, 45, 25).is_ok());
}

#[test]
fn category_x_exact_positions() {
    let p = PlotArea { left: 60, top: 45, width: 725, height: 330 };
    // slot width is 725 / 15 = 48; the first label sits 20px inside.
    assert_eq!(category_x(0, 15, &p), 80);
    assert_eq!(category_x(1, 15, &p), 128);
    assert_eq!(category_x(14, 15, &p), 80 + 14 * 48);
}

#[test]
fn category_x_strictly_increasing() {
    let p = PlotArea { left: 60, top: 45, width: 725, height: 330 };
    let mut prev = category_x(0, 15, &p);
    let mut i = 1;
    while i < 15 {
        let x = category_x(i, 15, &p);
        assert!(prev < x);
        prev = x;
        i += 1;
    }
}
