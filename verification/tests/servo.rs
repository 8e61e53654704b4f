use katapult::servo::Servo;

#[test]
fn new_servo_rests_at_zero() {
    let mut servo = Servo::new(1000, 2000);
    assert_eq!(servo.get_angle(), 0);
    assert_eq!(servo.set_angle(0), 1500);
    assert_eq!(servo.get_angle(), 0);
}

#[test]
fn standard_servo_has_the_usual_range() {
    let mut servo = Servo::standard();
    assert_eq!(servo.get_angle(), 0);
    assert_eq!(servo.set_angle(-90), 500);
    assert_eq!(servo.set_angle(90), 2000);
    assert_eq!(servo.set_angle(0), 1250);
}

#[test]
fn set_angle_clamps_above() {
    let mut servo = Servo::standard();
    let duty = servo.set_angle(200);
    assert_eq!(servo.get_angle(), 90);
    assert_eq!(duty, 2000);
}

#[test]
fn set_angle_clamps_below() {
    let mut servo = Servo::standard();
    let duty = servo.set_angle(-200);
    assert_eq!(servo.get_angle(), -90);
    assert_eq!(duty, 500);
}

#[test]
fn set_angle_clamps_at_the_ends_of_i32() {
    let mut servo = Servo::standard();
    servo.set_angle(i32::MAX);
    assert_eq!(servo.get_angle(), 90);
    servo.set_angle(i32::MIN);
    assert_eq!(servo.get_angle(), -90);
}

#[test]
fn set_angle_keeps_an_angle_in_range() {
    let mut servo = Servo::standard();
    assert_eq!(servo.set_angle(45), 1625);
    assert_eq!(servo.get_angle(), 45);
    assert_eq!(servo.set_angle(-45), 875);
    assert_eq!(servo.get_angle(), -45);
}

#[test]
fn pulse_width_rounds_down() {
    let mut servo = Servo::standard();
    // 91 * 1500 / 180 = 758.33
    assert_eq!(servo.set_angle(1), 1258);
    // 89 * 1500 / 180 = 741.67
    assert_eq!(servo.set_angle(-1), 1241);
}

#[test]
fn pulse_width_follows_the_range() {
    let mut servo = Servo::new(600, 2400);
    assert_eq!(servo.set_angle(30), 1800);
}

#[test]
fn widest_range_does_not_overflow() {
    let mut servo = Servo::new(0, u32::MAX);
    assert_eq!(servo.set_angle(90), u32::MAX);
    assert_eq!(servo.set_angle(-90), 0);
    assert_eq!(servo.set_angle(0), u32::MAX / 2);
}

#[test]
fn single_point_range_gives_one_width() {
    let mut servo = Servo::new(1500, 1500);
    assert_eq!(servo.set_angle(-90), 1500);
    assert_eq!(servo.set_angle(17), 1500);
    assert_eq!(servo.set_angle(90), 1500);
}
