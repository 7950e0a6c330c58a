use rcc::driver::DefaultDriver;
use rcc::driver::Driver;
use rcc::driver::DriverOptions;
use rcc::driver::RecordingRemover;
use rcc::executor::ExecError;
use rcc::executor::Execution;
use rcc::executor::ScriptedExecutor;
use rcc::target_platform::TargetPlatform;

fn strings(words: &[&str]) -> Vec<String> {
    words.iter().map(|w| w.to_string()).collect()
}

fn ok_execution() -> Result<Execution, ExecError> {
    Ok(Execution { exit_code: Some(0i32), stdout: None, stderr: None })
}

fn driver_options(c_file: &str) -> DriverOptions {
    DriverOptions {
        c_file: c_file.to_string(),
        lex: false,
        parse: false,
        codegen: false,
        save_temps: false,
        stop_after_compilation: false,
        target_platform: TargetPlatform::Transputer,
    }
}

fn execution_ok(result: Result<Execution, String>) {
    match result {
        Ok(success) => {
            assert_eq!(success.exit_code.unwrap(), 0i32);
            assert!(success.stdout.is_none());
            assert!(success.stderr.is_none());
        }
        Err(err) => {
            panic!("was not expecting an error: {}", err);
        }
    }
}

#[test]
fn calls_preprocessor() {
    let executor = ScriptedExecutor::new(vec![ok_execution()]);
    let mut sut = DefaultDriver::new(driver_options("file.c"), executor, RecordingRemover::new());
    execution_ok(sut.preprocess());
    let expected = vec![strings(&["gcc", "-E", "-P", "file.c", "-o", "file.i"])];
    assert_eq!(sut.executor().calls(), &expected);
}

fn check_compiler_flags(driver_options: DriverOptions, expected_args: &[&str]) {
    let executor = ScriptedExecutor::new(vec![ok_execution()]);
    let mut sut = DefaultDriver::new(driver_options, executor, RecordingRemover::new());
    execution_ok(sut.compile());
    let expected = vec![strings(expected_args)];
    assert_eq!(sut.executor().calls(), &expected);
}

#[test]
fn calls_compiler() {
    check_compiler_flags(driver_options("file.c"), &["rcc1", "file.i", "-o", "file.asm"]);
}

#[test]
fn flags_passed_to_compiler() {
    let driver_options = DriverOptions {
        c_file: "file.c".to_string(),
        lex: true,
        parse: true,
        codegen: true,
        save_temps: false,             // These two aren't passed through
        stop_after_compilation: false, // These two aren't passed through
        target_platform: TargetPlatform::Transputer,
    };
    let expected = ["rcc1", "--lex", "--parse", "--codegen", "file.i", "-o", "file.asm"];
    check_compiler_flags(driver_options, &expected);
}

#[test]
fn x86_64_architecture_passed_to_compiler() {
    let expected = ["rcc1", "--architecture", "X86_64", "file.i", "-o", "file.asm"];
    let mut options = driver_options("file.c");
    options.target_platform = TargetPlatform::X86_64;
    check_compiler_flags(options, &expected);
}

#[test]
fn epoc16_architecture_passed_to_compiler() {
    let expected = ["rcc1", "--architecture", "EPOC16", "file.i", "-o", "file.asm"];
    let mut options = driver_options("file.c");
    options.target_platform = TargetPlatform::EPOC16;
    check_compiler_flags(options, &expected);
}

#[test]
fn transputer_architecture_is_default_and_not_passed_to_compiler() {
    let expected = ["rcc1", "file.i", "-o", "file.asm"];
    check_compiler_flags(driver_options("file.c"), &expected);
}

#[test]
fn calls_assembler() {
    let executor = ScriptedExecutor::new(vec![ok_execution()]);
    let mut sut = DefaultDriver::new(driver_options("file.c"), executor, RecordingRemover::new());
    execution_ok(sut.assemble());
    let expected = vec![strings(&["tmasm", "file.asm", "-o", "file.bin", "-l", "file.lst"])];
    assert_eq!(sut.executor().calls(), &expected);
}

#[test]
fn preprocessor_file_deleted_after_compilation() {
    let executor = ScriptedExecutor::new(vec![ok_execution()]);
    let mut sut = DefaultDriver::new(driver_options("file.c"), executor, RecordingRemover::new());
    execution_ok(sut.compile());
    assert_eq!(sut.remover().requests(), &strings(&["file.i"]));
}

#[test]
fn preprocessor_file_retained_after_compilation_with_save_temps() {
    let executor = ScriptedExecutor::new(vec![ok_execution()]);
    let mut options = driver_options("file.c");
    options.save_temps = true;
    let mut sut = DefaultDriver::new(options, executor, RecordingRemover::new());
    execution_ok(sut.compile());
    assert!(sut.remover().requests().is_empty());
}

#[test]
fn assembly_file_deleted_after_assembly() {
    let executor = ScriptedExecutor::new(vec![ok_execution()]);
    let mut sut = DefaultDriver::new(driver_options("file.c"), executor, RecordingRemover::new());
    execution_ok(sut.assemble());
    assert_eq!(sut.remover().requests(), &strings(&["file.asm"]));
}

#[test]
fn assembly_file_retained_after_assembly_with_save_temps() {
    let executor = ScriptedExecutor::new(vec![ok_execution()]);
    let mut options = driver_options("file.c");
    options.save_temps = true;
    let mut sut = DefaultDriver::new(options, executor, RecordingRemover::new());
    execution_ok(sut.assemble());
    assert!(sut.remover().requests().is_empty());
}

#[test]
fn preprocess_deletes_nothing() {
    let executor = ScriptedExecutor::new(vec![ok_execution()]);
    let mut sut = DefaultDriver::new(driver_options("file.c"), executor, RecordingRemover::new());
    execution_ok(sut.preprocess());
    assert!(sut.remover().requests().is_empty());
}

#[test]
fn preprocess_reports_the_execution_verbatim() {
    let scripted = Ok(Execution {
        exit_code: Some(7),
        stdout: Some("noise".to_string()),
        stderr: Some("warnings".to_string()),
    });
    let executor = ScriptedExecutor::new(vec![scripted]);
    let mut sut = DefaultDriver::new(driver_options("file.c"), executor, RecordingRemover::new());
    let reported = sut.preprocess().unwrap();
    assert_eq!(reported.exit_code, Some(7));
    assert_eq!(reported.stdout, Some("noise".to_string()));
    assert_eq!(reported.stderr, Some("warnings".to_string()));
}

#[test]
fn spawn_failure_is_reported_with_the_executor_message() {
    let failure = Err(ExecError::SpawnFailure {
        command: "gcc".to_string(),
        reason: "No such file or directory (os error 2)".to_string(),
    });
    let executor = ScriptedExecutor::new(vec![failure]);
    let mut sut = DefaultDriver::new(driver_options("file.c"), executor, RecordingRemover::new());
    let err = sut.preprocess().unwrap_err();
    assert_eq!(err, "Could not run command 'gcc': No such file or directory (os error 2)");
}
