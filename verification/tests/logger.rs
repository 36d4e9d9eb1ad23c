use tcr::log::VerboseLogger;

#[test]
fn it_works() {
    assert_eq!(2 + 2, 4);
}

#[test]
fn test_verbose_logger() {
    let l = VerboseLogger { verbose: true };
    l.log("Hello world");
    l.log(String::from("foo"));
}

#[test]
fn verbose_logger_keeps_the_message() {
    let l = VerboseLogger::new(true);
    assert!(l.verbose);
    assert_eq!(l.log("Hello world"), Some(String::from("Hello world")));
    assert_eq!(l.log(String::from("foo")), Some(String::from("foo")));
    assert_eq!(l.keep(String::from("bar")), Some(String::from("bar")));
}

#[test]
fn quiet_logger_drops_the_message() {
    let l = VerboseLogger::new(false);
    assert!(!l.verbose);
    assert_eq!(l.log("Hello world"), None);
    assert_eq!(l.keep(String::from("bar")), None);
}
