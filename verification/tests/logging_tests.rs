use x265ify::logging::{debug_line, info_line, init_logging};

#[test]
fn init_logging_keeps_verbosity() {
    assert_eq!(init_logging(0).verbosity, 0);
    assert_eq!(init_logging(3).verbosity, 3);
}

#[test]
fn debug_enabled_from_verbosity_one() {
    assert!(!init_logging(0).debug_enabled());
    assert!(init_logging(1).debug_enabled());
    assert!(init_logging(2).debug_enabled());
}

#[test]
fn log_line_formats() {
    assert_eq!(info_line("Backup created"), "[INFO] Backup created");
    assert_eq!(debug_line("probing"), "[DEBUG] probing");
}
