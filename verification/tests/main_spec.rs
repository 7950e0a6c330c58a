use rcc::command_line::validate_command_line;

#[test]
fn main_spec_not_a_c_file_given() {
    let result = validate_command_line(
        Some("aardvark.stl".to_string()),
        false,
        false,
        false,
        false,
        false,
        false,
        None,
    );
    assert_eq!(result.unwrap_err(), "'aardvark.stl' is not a C filename");
}

#[test]
fn main_spec_nonexistant_lowercase_c_file_given() {
    let result = validate_command_line(
        Some("magnumopus.c".to_string()),
        false,
        false,
        false,
        false,
        false,
        false,
        None,
    );
    assert_eq!(result.unwrap_err(), "'magnumopus.c' could not be found");
}

#[test]
fn main_spec_nonexistant_uppercase_c_file_given() {
    let result = validate_command_line(
        Some("HELLOWORLD.C".to_string()),
        false,
        false,
        false,
        false,
        false,
        false,
        None,
    );
    assert_eq!(result.unwrap_err(), "'HELLOWORLD.C' could not be found");
}

#[test]
fn main_spec_existing_uppercase_c_file_given() {
    let result = validate_command_line(
        Some("HELLOWORLD.C".to_string()),
        true,
        false,
        false,
        false,
        false,
        false,
        None,
    );
    assert!(result.is_ok());
    assert_eq!(result.unwrap().c_file, "HELLOWORLD.C");
}

#[test]
fn main_spec_all_flags_off_by_default() {
    let driver_options = validate_command_line(
        Some("HELLOWORLD.C".to_string()),
        true,
        false,
        false,
        false,
        false,
        false,
        None,
    )
    .unwrap();
    assert_eq!(driver_options.lex, false);
    assert_eq!(driver_options.parse, false);
    assert_eq!(driver_options.codegen, false);
}

#[test]
fn main_spec_lex_flag() {
    let driver_options = validate_command_line(
        Some("HELLOWORLD.C".to_string()),
        true,
        true,
        false,
        false,
        false,
        false,
        None,
    )
    .unwrap();
    assert_eq!(driver_options.lex, true);
    assert_eq!(driver_options.parse, false);
    assert_eq!(driver_options.codegen, false);
}

#[test]
fn main_spec_parse_flag() {
    let driver_options = validate_command_line(
        Some("HELLOWORLD.C".to_string()),
        true,
        false,
        true,
        false,
        false,
        false,
        None,
    )
    .unwrap();
    assert_eq!(driver_options.lex, false);
    assert_eq!(driver_options.parse, true);
    assert_eq!(driver_options.codegen, false);
}

#[test]
fn main_spec_codegen_flag() {
    let driver_options = validate_command_line(
        Some("HELLOWORLD.C".to_string()),
        true,
        false,
        false,
        true,
        false,
        false,
        None,
    )
    .unwrap();
    assert_eq!(driver_options.lex, false);
    assert_eq!(driver_options.parse, false);
    assert_eq!(driver_options.codegen, true);
}
