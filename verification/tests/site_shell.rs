use homepage::markup::{i64_to_string, render_header, render_site, u64_digits};
use homepage::route::{Route, resolve};

#[test]
fn root_path_resolves_to_home() {
    assert_eq!(resolve("/"), Some(Route::Home));
}

#[test]
fn other_paths_match_no_route() {
    assert_eq!(resolve(""), None);
    assert_eq!(resolve("//"), None);
    assert_eq!(resolve("/home"), None);
    assert_eq!(resolve("/assets/main.css"), None);
    assert_eq!(resolve("index.html"), None);
    assert_eq!(resolve("."), None);
}

#[test]
fn header_render_is_idempotent() {
    let first = render_header();
    let second = render_header();
    assert_eq!(first, second);
    assert_eq!(first, "<header><h1><a href=\"/\">lightmix</a></h1></header>");
    assert_eq!(render_site(), render_site());
}

#[test]
fn site_shell_scenario() {
    let document = render_site();
    assert!(document.contains("<link rel=\"stylesheet\" href=\"/assets/main.css\">"));
    assert!(document.contains("<a href=\"/\">lightmix</a>"));
    assert!(document.contains("<header>"));
}

#[test]
fn unsigned_decimal_rendering() {
    assert_eq!(u64_digits(0), "0");
    assert_eq!(u64_digits(7), "7");
    assert_eq!(u64_digits(10), "10");
    assert_eq!(u64_digits(1234567890), "1234567890");
    assert_eq!(u64_digits(u64::MAX), "18446744073709551615");
}

#[test]
fn signed_decimal_rendering() {
    assert_eq!(i64_to_string(0), "0");
    assert_eq!(i64_to_string(-1), "-1");
    assert_eq!(i64_to_string(42), "42");
    assert_eq!(i64_to_string(-305), "-305");
    assert_eq!(i64_to_string(i64::MAX), "9223372036854775807");
    assert_eq!(i64_to_string(i64::MIN), "-9223372036854775808");
}
