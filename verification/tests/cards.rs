use todos::card::{badge_text, progress_bar_class, progress_style};

#[test]
fn badge_and_style() {
    assert_eq!(badge_text(45), "45%");
    assert_eq!(badge_text(-3), "-3%");
    assert_eq!(progress_style(45), "width: 45%");
    assert_eq!(progress_style(0), "width: 0%");
}

#[test]
fn done_tasks_are_green() {
    assert_eq!(progress_bar_class(100), "bg-success");
    assert_eq!(progress_bar_class(150), "bg-success");
    assert_eq!(progress_bar_class(99), "");
}
