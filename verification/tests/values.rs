use kata::coins::{plus_one, value_in_cents, Coin, UsState};
use kata::colors::{add_one, mix, PrimaryColor, SecondaryColor};
use kata::largest::{get_largest, get_largest_2};
use kata::my_box::MyBox;
use kata::ownership::{
    calculate_length, calculate_length_fix, change_value, gives_ownership, takes_and_gives_back,
};
use kata::plane::{Meters, Millimeters};
use kata::point::Point;
use kata::restaurant::back_of_house::{Appetizer, Breakfest};
use kata::restaurant::{
    eat_at_restaraunt, eat_at_restaraunt_2, eat_at_restaraunt_3, eat_at_restaraunt_4,
};
use kata::screen::{Button, Draw, Screen};
use kata::summary::{
    notify, returns_summarizable, Member, NewsArticle, Pair, Summary, Tweet,
};
use kata::user::build_user;
use kata::words::{first_word, longest};

#[test]
fn point_new_and_mixup() {
    let p3 = Point::new(10, 20.5f64);
    let p4 = Point::new(10, 10);
    assert_eq!(p4.sub(), 100);
    let mixed = p4.mixup(p3);
    assert_eq!(mixed.x, 10);
    assert_eq!(mixed.y, 20.5);
    let letters = Point::new('a', "b").mixup(Point::new(1u8, 2u8));
    assert_eq!(letters, Point { x: 'a', y: 2u8 });
}

#[test]
fn point_product() {
    assert_eq!(Point::new(-3, 7).sub(), -21);
    assert_eq!(Point::new(0, i32::MIN).sub(), 0);
    assert_eq!(Point::new(-1, i32::MAX).sub(), -i32::MAX);
    assert_eq!(Point::new(46340, 46340).sub(), 2147395600);
}

#[test]
fn largest_of_numbers() {
    assert_eq!(get_largest(vec![34, 50, 25, 100, 65]), 100);
    assert_eq!(get_largest(vec![102, 34, 6000, 90, 54, 2, 10, 15]), 6000);
    assert_eq!(get_largest(vec![25, 90, 5, 722, 12, 445, 12]), 722);
    assert_eq!(get_largest(vec![-5]), -5);
    assert_eq!(get_largest(vec![-5, -7, i32::MIN]), -5);
    assert_eq!(get_largest(vec![3, 3, 3]), 3);
}

#[test]
fn largest_of_anything_ordered() {
    assert_eq!(get_largest_2(vec!['w', 'x', 's', 'j']), 'x');
    assert_eq!(get_largest_2(vec![1u8, 9, 3]), 9);
    assert_eq!(get_largest_2(vec![2.5f64, 1.0, 7.25]), 7.25);
    assert_eq!(get_largest_2(vec!["pear", "apple"]), "pear");
}

#[test]
fn largest_of_partly_ordered_values_is_the_running_largest() {
    let found = get_largest_2(vec![1.0f64, f64::NAN, 0.5, 2.0]);
    assert_eq!(found, 2.0);
    let stuck = get_largest_2(vec![f64::NAN, 1.0, 2.0]);
    assert!(stuck.is_nan());
}

#[test]
fn summaries() {
    let tweet = Tweet {
        username: String::from("@johndoe"),
        content: String::from("Hello World!"),
        reply: false,
        retweet: false,
    };
    let article = NewsArticle {
        author: String::from("John Doe"),
        headline: String::from("The Sky is Falling!"),
        content: String::from("The sky is not actually falling!"),
    };
    assert_eq!(tweet.summarize(), "@johndoe : Hello World!");
    assert_eq!(tweet.summarize_author(), "@@johndoe");
    assert_eq!(article.summarize_author(), "John Doe");
    assert_eq!(article.summarize(), "(Read more from John Doe...)");
    assert_eq!(notify(&article), "Breaking news! (Read more from John Doe...)");
    assert_eq!(notify(&tweet), "Breaking news! @johndoe : Hello World!");
}

#[test]
fn summary_falls_back_on_the_author() {
    struct Anonymous;
    impl Summary for Anonymous {
        fn summarize_author(&self) -> String {
            String::new()
        }
    }
    assert_eq!(Anonymous.summarize(), "(Read more from ...)");
    assert_eq!(notify(&Anonymous), "Breaking news! (Read more from ...)");
}

#[test]
fn sample_tweet() {
    let tweet = returns_summarizable();
    assert_eq!(
        tweet.summarize(),
        "horse_ebooks : of course, as you probably already know, people"
    );
    assert!(!tweet.reply);
    assert!(!tweet.retweet);
}

#[test]
fn pair_picks_its_largest_member() {
    assert_eq!(Pair::new(3, 2).cmp_display(), Member::X);
    assert_eq!(Pair::new(2, 2).cmp_display(), Member::X);
    assert_eq!(Pair::new(1, 2).cmp_display(), Member::Y);
    assert_eq!(Pair::new(f64::NAN, 2.0).cmp_display(), Member::Y);
    assert_eq!(Pair::new("b", "a").cmp_display(), Member::X);
}

#[test]
fn longest_goes_by_bytes() {
    assert_eq!(longest("abcd", "xyz"), "abcd");
    assert_eq!(longest("xyz", "abcd"), "abcd");
    assert_eq!(longest("same", "size"), "size");
    assert_eq!(longest("", ""), "");
    assert_eq!(longest("é", "ab"), "ab");
    assert_eq!(longest("éé", "abc"), "éé");
}

#[test]
fn first_word_stops_at_the_first_space() {
    assert_eq!(first_word("hello world"), "hello");
    assert_eq!(first_word("hello"), "hello");
    assert_eq!(first_word(""), "");
    assert_eq!(first_word(" leading"), "");
    assert_eq!(first_word("two  spaces"), "two");
    assert_eq!(first_word("tab\tis no space"), "tab\tis");
    assert_eq!(first_word("grüße dich"), "grüße");
    assert_eq!(first_word("wide\u{3000}space only"), "wide\u{3000}space");
}

#[test]
fn strings_change_hands() {
    assert_eq!(gives_ownership(), "hello");
    assert_eq!(takes_and_gives_back(String::from("mine")), "mine");
    assert_eq!(calculate_length(String::from("hello")), (String::from("hello"), 5));
    assert_eq!(calculate_length(String::from("héllo")).1, 6);
    assert_eq!(calculate_length_fix(&String::new()), 0);
    assert_eq!(calculate_length_fix(&String::from("Привет")), 12);
    let mut s = String::from("hello");
    change_value(&mut s);
    assert_eq!(s, "hello, world");
    change_value(&mut s);
    assert_eq!(s, "hello, world, world");
}

#[test]
fn new_users_start_active() {
    let user = build_user(String::from("user2@email.com"), String::from("user2"));
    assert_eq!(user.email, "user2@email.com");
    assert_eq!(user.username, "user2");
    assert!(user.active);
    assert_eq!(user.sign_in_count, 0);
}

#[test]
fn coins_in_cents() {
    assert_eq!(value_in_cents(Coin::Penny), 1);
    assert_eq!(value_in_cents(Coin::Nickel), 5);
    assert_eq!(value_in_cents(Coin::Dime), 10);
    assert_eq!(value_in_cents(Coin::Quarter(UsState::Alaska)), 25);
    assert_eq!(value_in_cents(Coin::Quarter(UsState::California)), 25);
}

#[test]
fn plus_one_on_options() {
    assert_eq!(plus_one(Some(5)), Some(6));
    assert_eq!(plus_one(None), None);
    assert_eq!(plus_one(Some(-1)), Some(0));
    assert_eq!(plus_one(Some(i32::MAX - 1)), Some(i32::MAX));
}

#[test]
fn colors_and_counting() {
    assert_eq!(add_one(5), 6);
    assert_eq!(add_one(-1), 0);
    assert_eq!(add_one(i32::MIN), i32::MIN + 1);
    assert_eq!(mix(PrimaryColor::Red, PrimaryColor::Yellow), SecondaryColor::Orange);
    assert_eq!(mix(PrimaryColor::Blue, PrimaryColor::Blue), SecondaryColor::Orange);
}

#[test]
fn boxes_give_out_their_value() {
    let x = 5;
    let y = MyBox::new(x);
    assert_eq!(5, x);
    assert_eq!(5, *y);
    let m = MyBox::new(String::from("Rust"));
    assert_eq!(m.len(), 4);
    assert_eq!(first_word(&m), "Rust");
}

#[test]
fn points_and_lengths_add_up() {
    assert_eq!(
        kata::plane::Point { x: 1, y: 0 } + kata::plane::Point { x: 2, y: 3 },
        kata::plane::Point { x: 3, y: 3 }
    );
    assert_eq!(
        kata::plane::Point { x: i32::MAX, y: -1 } + kata::plane::Point { x: 0, y: i32::MIN + 1 },
        kata::plane::Point { x: i32::MAX, y: i32::MIN }
    );
    assert_eq!(Millimeters(250) + Meters(2), Millimeters(2250));
    assert_eq!(Millimeters(0) + Meters(0), Millimeters(0));
    assert_eq!(Millimeters(967295) + Meters(4294000), Millimeters(u32::MAX));
}

#[test]
fn screen_draws_every_component_in_order() {
    struct Label(String);
    impl Draw for Label {
        fn draw(&self) -> String {
            self.0.clone()
        }
    }
    let screen = Screen {
        components: vec![
            Box::new(Button { width: 50, height: 10, label: String::from("OK") }),
            Box::new(Label(String::from("name"))),
            Box::new(Button { width: 5, height: 1, label: String::from("Cancel") }),
        ],
    };
    assert_eq!(screen.run(), vec!["Draw button!", "name", "Draw button!"]);
    assert_eq!(Screen { components: vec![] }.run(), Vec::<String>::new());
}

#[test]
fn breakfast_in_summer() {
    let mut meal = Breakfest::summer("Rye");
    assert_eq!(meal.toast, "Rye");
    assert_eq!(meal.seasonal_fruit(), "peaches");
    meal.toast = String::from("Wheat");
    assert_eq!(meal.toast, "Wheat");
    meal.change_toast("White");
    assert_eq!(meal.toast, "White");
    assert_eq!(meal.seasonal_fruit(), "peaches");
    assert_ne!(Appetizer::Soup, Appetizer::Salad);
}

#[test]
fn restaurant_visits_end() {
    eat_at_restaraunt();
    eat_at_restaraunt_2();
    eat_at_restaraunt_3();
    eat_at_restaraunt_4();
}
