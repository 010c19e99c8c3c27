use homepage::counter::{Click, Counter, run_clicks};
use homepage::markup::{counter_heading, mount_home, page_after_clicks, render_home};

#[test]
fn initial_counter_reads_zero() {
    let c = Counter::new();
    assert_eq!(c.get(), 0);
}

#[test]
fn mount_renders_counter_at_zero() {
    let (c, page) = mount_home();
    assert_eq!(c.get(), 0);
    assert_eq!(
        page,
        "<h1>High-Five counter: 0</h1><button>Up high!</button><button>Down low!</button>"
    );
}

#[test]
fn heading_interpolates_value() {
    assert_eq!(counter_heading(0), "High-Five counter: 0");
    assert_eq!(counter_heading(41), "High-Five counter: 41");
    assert_eq!(counter_heading(-7), "High-Five counter: -7");
}

#[test]
fn high_five_scenario() {
    let (mut c, page) = mount_home();
    assert_eq!(counter_heading(c.get()), "High-Five counter: 0");
    assert!(page.contains("High-Five counter: 0"));
    c.up();
    c.up();
    assert_eq!(counter_heading(c.get()), "High-Five counter: 2");
    c.down();
    assert_eq!(counter_heading(c.get()), "High-Five counter: 1");
}

#[test]
fn ups_then_downs_net_value() {
    let mut clicks = Vec::new();
    for _ in 0..5 {
        clicks.push(Click::Up);
    }
    for _ in 0..3 {
        clicks.push(Click::Down);
    }
    let c = run_clicks(&clicks);
    assert_eq!(c.get(), 2);
}

#[test]
fn page_displays_net_value() {
    let mut clicks = Vec::new();
    for _ in 0..5 {
        clicks.push(Click::Up);
    }
    for _ in 0..3 {
        clicks.push(Click::Down);
    }
    let page = page_after_clicks(&clicks);
    assert!(page.contains("High-Five counter: 2"));
}

#[test]
fn downs_alone_go_negative() {
    let clicks = vec![Click::Down, Click::Down, Click::Down, Click::Down];
    let c = run_clicks(&clicks);
    assert_eq!(c.get(), -4);
}

#[test]
fn apply_matches_buttons() {
    let mut a = Counter::new();
    let mut b = Counter::new();
    a.up();
    b.apply(Click::Up);
    assert_eq!(a, b);
    a.down();
    b.apply(Click::Down);
    assert_eq!(a, b);
}

#[test]
fn counter_saturates_at_the_ends() {
    let mut c = Counter { value: i64::MAX };
    c.up();
    assert_eq!(c.get(), i64::MAX);
    c.down();
    assert_eq!(c.get(), i64::MAX - 1);

    let mut c = Counter { value: i64::MIN };
    c.down();
    assert_eq!(c.get(), i64::MIN);
    c.up();
    assert_eq!(c.get(), i64::MIN + 1);
}

#[test]
fn render_home_shows_current_value() {
    assert_eq!(
        render_home(13),
        "<h1>High-Five counter: 13</h1><button>Up high!</button><button>Down low!</button>"
    );
}
