use bong::Fault;
use bong::args::parse_thread_id;

fn chars(s: &str) -> Vec<char> {
    s.chars().collect()
}

#[test]
fn plain_decimal_parses() {
    assert_eq!(parse_thread_id(&chars("7")), Ok(7));
    assert_eq!(parse_thread_id(&chars("0")), Ok(0));
    assert_eq!(parse_thread_id(&chars("1234")), Ok(1234));
}

#[test]
fn empty_and_whitespace_default_to_zero() {
    assert_eq!(parse_thread_id(&chars("")), Ok(0));
    assert_eq!(parse_thread_id(&chars("   ")), Ok(0));
    assert_eq!(parse_thread_id(&chars("\t\r\n")), Ok(0));
    assert_eq!(parse_thread_id(&chars("\u{00A0}\u{2003}")), Ok(0));
}

#[test]
fn surrounding_whitespace_is_trimmed() {
    assert_eq!(parse_thread_id(&chars("  42  ")), Ok(42));
    assert_eq!(parse_thread_id(&chars("\t99")), Ok(99));
    assert_eq!(parse_thread_id(&chars("8 ")), Ok(8));
}

#[test]
fn leading_plus_is_accepted() {
    assert_eq!(parse_thread_id(&chars("+13")), Ok(13));
    assert_eq!(parse_thread_id(&chars(" +0 ")), Ok(0));
}

#[test]
fn largest_thread_id_parses() {
    assert_eq!(parse_thread_id(&chars("4294967295")), Ok(u32::MAX));
}

#[test]
fn overflow_is_an_argument_fault() {
    assert_eq!(parse_thread_id(&chars("4294967296")), Err(Fault::Argument));
    assert_eq!(parse_thread_id(&chars("99999999999999999999")), Err(Fault::Argument));
}

#[test]
fn non_numeric_is_an_argument_fault() {
    assert_eq!(parse_thread_id(&chars("abc")), Err(Fault::Argument));
    assert_eq!(parse_thread_id(&chars("12x")), Err(Fault::Argument));
    assert_eq!(parse_thread_id(&chars("x12")), Err(Fault::Argument));
    assert_eq!(parse_thread_id(&chars("1 2")), Err(Fault::Argument));
}

#[test]
fn negative_is_an_argument_fault() {
    assert_eq!(parse_thread_id(&chars("-1")), Err(Fault::Argument));
    assert_eq!(parse_thread_id(&chars("-0")), Err(Fault::Argument));
}

#[test]
fn bare_sign_is_an_argument_fault() {
    assert_eq!(parse_thread_id(&chars("+")), Err(Fault::Argument));
}

#[test]
fn fault_descriptions_name_the_boundary() {
    assert_eq!(Fault::Argument.describe(), "invalid thread id");
    assert_eq!(Fault::Sync.describe(), "shutdown signal failure");
    assert_eq!(Fault::Hook.describe(), "hook installation failure");
    assert_eq!(Fault::Query.describe(), "window class query failure");
    assert_eq!(Fault::Patch.describe(), "menu patch failure");
}
