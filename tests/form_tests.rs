use egui_kittest_demo::text::{decimal_string, greeting};
use egui_kittest_demo::{DemoApp, ScalingMode};

#[test]
fn test_demo_app_basic_functionality() {
    let mut app = DemoApp::new();
    assert_eq!(app.counter, 0);
    app.increment();
    assert_eq!(app.counter, 1);
    app.decrement();
    assert_eq!(app.counter, 0);
}

#[test]
fn test_demo_app_name_input() {
    let mut app = DemoApp::default();
    app.set_name(String::from("Alice"));
    assert_eq!(app.name, "Alice");
}

#[test]
fn test_demo_app_age_input() {
    let mut app = DemoApp::new();
    app.increment();
    assert_eq!(app.counter, 1, "Counter should be updated to 1");
}

#[test]
fn keyboard_name_input_updates_greeting() {
    let mut app = DemoApp::new();
    app.set_name(String::from("Eve"));
    assert!(app.greeting().contains("Hello, Eve!"));
}

#[test]
fn spinbutton_type_updates_age() {
    let mut app = DemoApp::new();
    app.set_age(42);
    assert!(app.greeting().contains("You are 42 years old"));
}

#[test]
fn test_demo_app_dialog() {
    let mut app = DemoApp::new();
    assert!(!app.show_confirmation_dialog);
    app.show_dialog();
    assert!(app.show_confirmation_dialog);
    app.answer_yes();
    assert!(!app.show_confirmation_dialog);
}

#[test]
fn test_demo_app_dialog_no_button() {
    let mut app = DemoApp::new();
    app.show_dialog();
    assert!(app.show_confirmation_dialog);
    app.answer_no();
    assert!(!app.show_confirmation_dialog);
}

#[test]
fn test_demo_app_complete_workflow() {
    let mut app = DemoApp::new();
    app.set_name(String::from("Bob"));
    app.increment();
    app.increment();
    app.increment();
    assert_eq!(app.counter, 3, "Counter should be updated to 3");
    app.show_dialog();
    assert!(app.show_confirmation_dialog);
    app.answer_yes();
    assert!(!app.show_confirmation_dialog);
    assert_eq!(app.counter, 3);
    assert_eq!(app.name, "Bob");
}

#[test]
fn counter_three_up_one_down() {
    let mut app = DemoApp::new();
    app.increment();
    app.increment();
    app.increment();
    assert_eq!(app.counter, 3);
    app.decrement();
    assert_eq!(app.counter, 2);
}

#[test]
fn counter_goes_below_zero() {
    let mut app = DemoApp::new();
    app.decrement();
    app.decrement();
    assert_eq!(app.counter, -2);
}

#[test]
fn new_app_defaults() {
    let app = DemoApp::new();
    assert_eq!(app.name, "");
    assert_eq!(app.age, 0);
    assert_eq!(app.counter, 0);
    assert!(!app.show_confirmation_dialog);
    assert_eq!(app.zoom_percent, 100);
    assert_eq!(app.scaling_mode, ScalingMode::Zoom);
    assert!(app.base_style.is_none());
}

#[test]
fn age_is_clamped_to_range() {
    let mut app = DemoApp::new();
    app.set_age(120);
    assert_eq!(app.age, 120);
    app.set_age(121);
    assert_eq!(app.age, 120);
    app.set_age(u32::MAX);
    assert_eq!(app.age, 120);
    app.set_age(0);
    assert_eq!(app.age, 0);
}

#[test]
fn name_is_kept_verbatim() {
    let mut app = DemoApp::new();
    app.set_name(String::from("  Zoë  "));
    assert_eq!(app.name, "  Zoë  ");
    assert_eq!(app.greeting(), "Hello,   Zoë  ! You are 0 years old.");
}

#[test]
fn full_greeting_text() {
    let mut app = DemoApp::new();
    app.set_name(String::from("Eve"));
    app.set_age(42);
    assert_eq!(app.greeting(), "Hello, Eve! You are 42 years old.");
    assert_eq!(greeting("", 7), "Hello, ! You are 7 years old.");
}

#[test]
fn decimal_rendering() {
    assert_eq!(decimal_string(0), "0");
    assert_eq!(decimal_string(9), "9");
    assert_eq!(decimal_string(10), "10");
    assert_eq!(decimal_string(120), "120");
    assert_eq!(decimal_string(u32::MAX), "4294967295");
}
