use rcc::compiler::Compiler;
use rcc::compiler::CompilerOptions;
use rcc::exit_status::ExitStatus;
use rcc::target_platform::TargetPlatform;

fn lexer_test(contents: &str) -> ExitStatus {
    let compiler_options = CompilerOptions {
        c_file: "file.i".to_string(),
        asm_file: None,
        lex: true,
        parse: false,
        codegen: false,
        target_platform: TargetPlatform::default(),
    };
    let compiler = Compiler::new();
    compiler.compile(&compiler_options, contents)
}

#[test]
fn just_lexer_test_ok_listing_1_1() {
    // No preprocessor changes in this simple code, so plain source text.
    let contents = "int main(void) {\n    return 2;\n}";
    let out = lexer_test(contents);
    assert_eq!(out, ExitStatus::Success);
}

#[test]
fn just_lexer_test_fail() {
    let contents = "<<>>";
    let out = lexer_test(contents);
    assert_eq!(out, ExitStatus::DataErr);
}

#[test]
fn garbled_text_in_lex_only_mode_reports_the_data_format_status() {
    // Lex-only processing happens entirely in-process: the compiler takes no
    // executor at all, so no external process can be invoked on this path.
    let out = lexer_test("%%@@!!");
    assert_eq!(out, ExitStatus::DataErr);
}

#[test]
fn without_lex_flag_nothing_further_is_implemented_and_success_is_reported() {
    let compiler_options = CompilerOptions {
        c_file: "file.i".to_string(),
        asm_file: None,
        lex: false,
        parse: false,
        codegen: false,
        target_platform: TargetPlatform::default(),
    };
    let compiler = Compiler::new();
    assert_eq!(compiler.compile(&compiler_options, "<<>>"), ExitStatus::Success);
}
