use rcc::driver::DefaultDriver;
use rcc::driver::DriverOptions;
use rcc::driver::Phase;
use rcc::driver::RecordingRemover;
use rcc::driver::ScriptedDriver;
use rcc::driver_controller::DefaultDriverController;
use rcc::driver_controller::DriverController;
use rcc::executor::ExecError;
use rcc::executor::Execution;
use rcc::executor::ScriptedExecutor;
use rcc::exit_status::ExitStatus;
use rcc::target_platform::TargetPlatform;

fn strings(words: &[&str]) -> Vec<String> {
    words.iter().map(|w| w.to_string()).collect()
}

fn ok_execution() -> Result<Execution, String> {
    Ok(Execution { exit_code: Some(0), stdout: None, stderr: None })
}

fn driver_options() -> DriverOptions {
    DriverOptions {
        c_file: "file.c".to_string(),
        lex: false,
        parse: false,
        codegen: false,
        save_temps: false,
        stop_after_compilation: false,
        target_platform: TargetPlatform::Transputer,
    }
}

#[test]
fn calls_phases_happy_path() {
    let mut mock_driver = ScriptedDriver::new(
        driver_options(),
        Some(ok_execution()),
        Some(ok_execution()),
        Some(ok_execution()),
    );
    let sut = DefaultDriverController::new();
    let res = sut.drive(&driver_options(), &mut mock_driver);
    let exit_code = res.ok().unwrap();
    assert_eq!(exit_code, ExitStatus::Success);
    assert_eq!(mock_driver.calls(), &vec![Phase::Preprocess, Phase::Compile, Phase::Assemble]);
}

#[test]
fn preprocessor_fails() {
    let mut mock_driver = ScriptedDriver::new(
        driver_options(),
        Some(Err("Preprocessor failed".to_string())),
        None,
        None,
    );
    let sut = DefaultDriverController::new();
    let res = sut.drive(&driver_options(), &mut mock_driver);
    let msg = res.err().unwrap().message();
    assert_eq!(msg, "Could not run preprocessor: Preprocessor failed");
    // The pipeline aborted before compile or assemble could run.
    assert_eq!(mock_driver.calls(), &vec![Phase::Preprocess]);
}

#[test]
fn compiler_fails() {
    let mut mock_driver = ScriptedDriver::new(
        driver_options(),
        Some(ok_execution()),
        Some(Err("Compiler failed".to_string())),
        None,
    );
    let sut = DefaultDriverController::new();
    let res = sut.drive(&driver_options(), &mut mock_driver);
    let msg = res.err().unwrap().message();
    assert_eq!(msg, "Could not run compiler: Compiler failed");
    assert_eq!(mock_driver.calls(), &vec![Phase::Preprocess, Phase::Compile]);
}

#[test]
fn assembler_fails() {
    let mut mock_driver = ScriptedDriver::new(
        driver_options(),
        Some(ok_execution()),
        Some(ok_execution()),
        Some(Err("Assembler failed".to_string())),
    );
    let sut = DefaultDriverController::new();
    let res = sut.drive(&driver_options(), &mut mock_driver);
    let msg = res.err().unwrap().message();
    assert_eq!(msg, "Could not run assembler: Assembler failed");
    assert_eq!(mock_driver.calls(), &vec![Phase::Preprocess, Phase::Compile, Phase::Assemble]);
}

#[test]
fn stop_after_compilation_skips_assembly_and_reports_success() {
    let mut options = driver_options();
    options.stop_after_compilation = true;
    let mut mock_driver = ScriptedDriver::new(
        options.clone(),
        Some(ok_execution()),
        Some(ok_execution()),
        None,
    );
    let sut = DefaultDriverController::new();
    let res = sut.drive(&options, &mut mock_driver);
    assert_eq!(res.ok().unwrap(), ExitStatus::Success);
    assert_eq!(mock_driver.calls(), &vec![Phase::Preprocess, Phase::Compile]);
}

#[test]
fn three_external_calls_in_order_end_to_end() {
    let executor = ScriptedExecutor::new(vec![
        Ok(Execution { exit_code: Some(0), stdout: None, stderr: None }),
        Ok(Execution { exit_code: Some(0), stdout: None, stderr: None }),
        Ok(Execution { exit_code: Some(0), stdout: None, stderr: None }),
    ]);
    let mut driver =
        DefaultDriver::new(driver_options(), executor, RecordingRemover::new());
    let controller = DefaultDriverController::new();
    let res = controller.drive(&driver_options(), &mut driver);
    assert_eq!(res.ok().unwrap(), ExitStatus::Success);
    let expected = vec![
        strings(&["gcc", "-E", "-P", "file.c", "-o", "file.i"]),
        strings(&["rcc1", "file.i", "-o", "file.asm"]),
        strings(&["tmasm", "file.asm", "-o", "file.bin", "-l", "file.lst"]),
    ];
    assert_eq!(driver.executor().calls(), &expected);
}

#[test]
fn failed_spawn_aborts_the_pipeline_after_one_call() {
    let executor = ScriptedExecutor::new(vec![Err(ExecError::SpawnFailure {
        command: "gcc".to_string(),
        reason: "No such file or directory (os error 2)".to_string(),
    })]);
    let mut driver =
        DefaultDriver::new(driver_options(), executor, RecordingRemover::new());
    let controller = DefaultDriverController::new();
    let res = controller.drive(&driver_options(), &mut driver);
    let msg = res.err().unwrap().message();
    assert_eq!(
        msg,
        "Could not run preprocessor: Could not run command 'gcc': No such file or directory (os error 2)"
    );
    assert_eq!(driver.executor().calls().len(), 1);
}
