use api_client::methods::{
    method_color, method_index, method_name, method_short, next_method, prev_method,
};
use api_client::text::{same_text, truncate};

#[test]
fn short_labels_are_five_wide() {
    assert_eq!(method_short("GET"), "GET  ");
    assert_eq!(method_short("POST"), "POST ");
    assert_eq!(method_short("PUT"), "PUT  ");
    assert_eq!(method_short("PATCH"), "PATCH");
    assert_eq!(method_short("DELETE"), "DEL  ");
    assert_eq!(method_short("HEAD"), "?????");
    for m in ["GET", "POST", "PUT", "PATCH", "DELETE", "x", ""] {
        assert_eq!(method_short(m).chars().count(), 5);
    }
}

#[test]
fn method_colors() {
    assert_eq!(method_color("GET"), (80, 200, 120));
    assert_eq!(method_color("POST"), (90, 150, 255));
    assert_eq!(method_color("PUT"), (255, 190, 50));
    assert_eq!(method_color("PATCH"), (80, 210, 210));
    assert_eq!(method_color("DELETE"), (255, 90, 90));
    assert_eq!(method_color("get"), (210, 210, 220));
}

#[test]
fn method_lookup_round_trip() {
    for i in 0..5 {
        assert_eq!(method_index(method_name(i)), i);
    }
    assert_eq!(method_index("OPTIONS"), 0);
}

#[test]
fn method_cycle_steps() {
    assert_eq!(next_method(4), 0);
    assert_eq!(prev_method(0), 4);
    for i in 0..5 {
        assert_eq!(prev_method(next_method(i)), i);
        assert_eq!(next_method(prev_method(i)), i);
    }
}

#[test]
fn truncate_short_and_long() {
    assert_eq!(truncate("hello", 10), "hello");
    assert_eq!(truncate("hello", 5), "hello");
    assert_eq!(truncate("hello world", 5), "hello");
    assert_eq!(truncate("héllo", 3), "hé");
}

#[test]
fn same_text_compares_characters() {
    assert!(same_text("abc", "abc"));
    assert!(!same_text("abc", "abd"));
    assert!(!same_text("abc", "ab"));
    assert!(same_text("", ""));
}
