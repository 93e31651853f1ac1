use tray_popover::geometry::LogicalRect;
use tray_popover::geometry::PhysicalPoint;
use tray_popover::geometry::compute_target_position;
use tray_popover::geometry::round_div_half_away;

#[test]
fn rounds_to_nearest() {
    assert_eq!(round_div_half_away(4, 2), 2);
    assert_eq!(round_div_half_away(7, 2), 4);
    assert_eq!(round_div_half_away(3, 3), 1);
    assert_eq!(round_div_half_away(4, 3), 1);
    assert_eq!(round_div_half_away(5, 3), 2);
    assert_eq!(round_div_half_away(0, 5), 0);
}

#[test]
fn rounds_ties_away_from_zero() {
    assert_eq!(round_div_half_away(1, 2), 1);
    assert_eq!(round_div_half_away(5, 2), 3);
    assert_eq!(round_div_half_away(-1, 2), -1);
    assert_eq!(round_div_half_away(-5, 2), -3);
    assert_eq!(round_div_half_away(-4, 2), -2);
}

#[test]
fn position_is_deterministic_at_integer_scale() {
    // A 20x20 icon at (100, 50), scale factor 2.0: the physical rectangle is
    // (200, 100) sized 40x40, so the 400 wide window sits at
    // (200 + 20 - 200, 100 + 40 + 8) = (20, 148).
    let rect = LogicalRect { x: 100, y: 50, width: 20, height: 20 };
    let p = compute_target_position(&rect, 2000, 400, 8);
    assert_eq!(p, PhysicalPoint { x: 20, y: 148 });
}

#[test]
fn position_is_deterministic_at_fractional_scale() {
    // A 30x30 icon at (10, 10), scale factor 1.5: the physical rectangle is
    // (15, 15) sized 45x45, so the target is (15 + 22.5 - 200, 15 + 45 + 8)
    // = (-162.5, 68), and the tie rounds away from zero to -163.
    let rect = LogicalRect { x: 10, y: 10, width: 30, height: 30 };
    let p = compute_target_position(&rect, 1500, 400, 8);
    assert_eq!(p, PhysicalPoint { x: -163, y: 68 });
}

#[test]
fn position_at_unit_scale_stays_logical() {
    let rect = LogicalRect { x: 100, y: 50, width: 20, height: 20 };
    let p = compute_target_position(&rect, 1000, 400, 8);
    assert_eq!(p, PhysicalPoint { x: -90, y: 78 });
}

#[test]
fn position_can_leave_the_screen() {
    // An icon flush against the origin pushes the window off screen to the
    // left; the placement is not clamped.
    let rect = LogicalRect { x: 0, y: 0, width: 16, height: 16 };
    let p = compute_target_position(&rect, 1000, 400, 8);
    assert_eq!(p, PhysicalPoint { x: -192, y: 24 });
}
