use idioms::config::Config;

fn window(width: i32, height: i32) -> Config {
    Config {
        title: String::from("Window"),
        width,
        height,
        should_open: Some(true),
        tail: false,
    }
}

#[test]
fn total_space_is_the_area() {
    assert_eq!(window(800, 600).total_space(), Some(480_000));
    assert_eq!(window(-3, 7).total_space(), Some(-21));
    assert_eq!(window(0, i32::MAX).total_space(), Some(0));
}

#[test]
fn total_space_overflow_is_none() {
    assert_eq!(window(i32::MAX, 2).total_space(), None);
    assert_eq!(window(65_536, 32_768).total_space(), None);
    assert_eq!(window(i32::MIN, -1).total_space(), None);
    assert_eq!(window(-65_536, 32_768).total_space(), Some(i32::MIN));
}
