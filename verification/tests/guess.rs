use kata::guess::{add_two, greeting, Guess};
use kata::shapes::{area, Rectangle};

#[test]
fn larger_can_hold_smaller() {
    let larger = Rectangle {
        width: 8,
        height: 7,
    };

    let smaller = Rectangle {
        width: 5,
        height: 1,
    };

    // Will success
    assert!(larger.can_hold(&smaller));
}

#[test]
fn smaller_cannot_holf_larger() {
    let larger = Rectangle {
        width: 8,
        height: 7,
    };

    let smaller = Rectangle {
        width: 5,
        height: 1,
    };

    // Will success
    assert!(!smaller.can_hold(&larger));
}

#[test]
fn it_adds_two() {
    // Must to success, 4 = 4
    assert_eq!(4, add_two(2));
}

#[test]
fn add_two_at_the_edges() {
    assert_eq!(add_two(-2), 0);
    assert_eq!(add_two(i32::MIN), i32::MIN + 2);
    assert_eq!(add_two(i32::MAX - 2), i32::MAX);
}

#[test]
fn greeting_names_the_guest() {
    assert_eq!(greeting("Carol"), "Hello Carol!");
    assert_eq!(greeting(""), "Hello !");
    assert!(greeting("Maya").contains("Maya"));
}

#[test]
fn guess_keeps_its_value() {
    assert_eq!(Guess::new(1).value(), 1);
    assert_eq!(Guess::new(50).value(), 50);
    assert_eq!(Guess::new(100).value(), 100);
}

#[test]
fn can_hold_needs_room_on_both_sides() {
    let a = Rectangle { width: 8, height: 7 };
    assert!(!a.can_hold(&a));
    assert!(!a.can_hold(&Rectangle { width: 8, height: 1 }));
    assert!(!a.can_hold(&Rectangle { width: 1, height: 7 }));
    assert!(a.can_hold(&Rectangle { width: 7, height: 6 }));
    assert!(a.can_hold(&Rectangle { width: 0, height: 0 }));
}

#[test]
fn rectangle_area_and_square() {
    let rect = Rectangle { width: 30, height: 50 };
    assert_eq!(rect.area(), 1500);
    assert_eq!(area(&rect), 1500);
    let square = Rectangle::square(25);
    assert_eq!(square, Rectangle { width: 25, height: 25 });
    assert_eq!(square.area(), 625);
    assert_eq!(Rectangle { width: 65535, height: 65537 }.area(), u32::MAX);
}
