use kata::counter::{shoes_in_my_size, Counter, Shoe};

#[test]
fn iterator_demonstration() {
    let v1 = vec![1, 2, 3];

    let mut v1_iter = v1.iter();

    assert_eq!(v1_iter.next(), Some(&1));
    assert_eq!(v1_iter.next(), Some(&2));
    assert_eq!(v1_iter.next(), Some(&3));
    assert_eq!(v1_iter.next(), None);
}

#[test]
fn iterator_sum() {
    let v1 = vec![1, 2, 3];

    let v1_iter = v1.iter();
    let total: i32 = v1_iter.sum();

    assert_eq!(total, 6);
}

#[test]
fn filters_by_size() {
    let shoes = vec![
        Shoe {
            size: 10,
            style: String::from("sneaker"),
        },
        Shoe {
            size: 13,
            style: String::from("sandal"),
        },
        Shoe {
            size: 10,
            style: String::from("boot"),
        },
    ];

    let in_my_size = shoes_in_my_size(shoes, 10);

    assert_eq!(
        in_my_size,
        vec![
            Shoe {
                size: 10,
                style: String::from("sneaker"),
            },
            Shoe {
                size: 10,
                style: String::from("boot"),
            },
        ]
    );
}

#[test]
fn calling_next_directly() {
    let mut counter = Counter::new();

    assert_eq!(counter.next(), Some(1));
    assert_eq!(counter.next(), Some(2));
    assert_eq!(counter.next(), Some(3));
    assert_eq!(counter.next(), Some(4));
    assert_eq!(counter.next(), Some(5));
    assert_eq!(counter.next(), None);
}

#[test]
fn using_other_iterator_trait_methods() {
    let mut first = Counter::new();
    let mut second = Counter::new();
    let sum: u32 = std::iter::from_fn(move || first.next())
        .zip(std::iter::from_fn(move || second.next()).skip(1)) // Zip method concat two iterators into one
        .map(|(a, b)| a * b) // Map method modify each value
        .filter(|x| x % 3 == 0) // Filter method filters the values
        .sum(); // Sum method sum the all values

    assert_eq!(18, sum);
}

#[test]
fn counter_stays_at_the_end() {
    let mut counter = Counter::new();
    for expected in 1..=5 {
        assert_eq!(counter.next(), Some(expected));
    }
    for _ in 0..3 {
        assert_eq!(counter.next(), None);
    }
}

#[test]
fn no_shoe_fits() {
    let shoes = vec![Shoe { size: 9, style: String::from("clog") }];
    assert_eq!(shoes_in_my_size(shoes, 10), vec![]);
    assert_eq!(shoes_in_my_size(vec![], 10), vec![]);
}
