use crate::driver::spec_assemble_command;
use crate::driver::spec_compile_command;
use crate::driver::spec_preprocess_command;
use crate::driver::Driver;
use crate::driver::DriverOptions;
use crate::executor::Execution;
use crate::exit_status::ExitStatus;
use vstd::prelude::*;
use vstd::string::StringExecFns;

verus! {

/// Why the whole pipeline aborted: the phase that could not be run, carrying
/// that phase's own message.
#[derive(Debug, Clone, PartialEq)]
pub enum PipelineError {
    /// The preprocess phase failed; nothing after it ran.
    Preprocessor(String),
    /// The compile phase failed; nothing after it ran.
    Compiler(String),
    /// The assemble phase failed.
    Assembler(String),
}

impl PipelineError {
    /// The single human-readable line reported at the process boundary: a
    /// phase-identifying prefix, then the phase's own message.
    pub open spec fn spec_message(&self) -> Seq<char> {
        match self {
            PipelineError::Preprocessor(m) => "Could not run preprocessor: "@ + m@,
            PipelineError::Compiler(m) => "Could not run compiler: "@ + m@,
            PipelineError::Assembler(m) => "Could not run assembler: "@ + m@,
        }
    }

    /// Renders the abort as one human-readable line.
    pub fn message(&self) -> (r: String)
        ensures
            r@ == self.spec_message(),
    {
        match self {
            PipelineError::Preprocessor(m) => {
                let mut s = "Could not run preprocessor: ".to_owned();
                s.append(m.as_str());
                s
            },
            PipelineError::Compiler(m) => {
                let mut s = "Could not run compiler: ".to_owned();
                s.append(m.as_str());
                s
            },
            PipelineError::Assembler(m) => {
                let mut s = "Could not run assembler: ".to_owned();
                s.append(m.as_str());
                s
            },
        }
    }
}

/// Sequences the pipeline phases over a phase driver: a linear state machine
/// whose only branch is the single early-exit decision after the compile
/// phase.
pub trait DriverController {
    /// Runs preprocess, then compile, then — unless `stop-after-compile` is
    /// set — assemble, aborting on the first phase that fails and naming it.
    ///
    /// The contract pins the whole observable behaviour down:
    /// - exactly the commands of the phases that ran were issued, in phase
    ///   order, and no phase ran twice;
    /// - the result is determined by the phases' outcomes: the first failing
    ///   phase aborts the pipeline with that phase's name and its exact
    ///   message, later phases never run, and success is reported if and
    ///   only if every phase that was owed a run succeeded;
    /// - if `stop-after-compile` is set and compile succeeded, the assemble
    ///   phase is never invoked and the pipeline reports success.
    fn drive<D: Driver>(&self, driver_options: &DriverOptions, driver: &mut D) -> (r: Result<
        ExitStatus,
        PipelineError,
    >)
        ensures
            final(driver).options_model() == old(driver).options_model(),
            final(driver).outcomes().take(old(driver).outcomes().len() as int) == old(
                driver,
            ).outcomes(),
            ({
                let added = final(driver).outcomes().skip(old(driver).outcomes().len() as int);
                match r {
                    Ok(status) => {
                        &&& status == ExitStatus::Success
                        &&& if driver_options@.stop_after_compilation {
                            added.len() == 2 && added[0] is Ok && added[1] is Ok
                        } else {
                            added.len() == 3 && added[0] is Ok && added[1] is Ok && added[2] is Ok
                        }
                    },
                    Err(e) => match e {
                        PipelineError::Preprocessor(msg) => {
                            &&& added.len() == 1
                            &&& added[0] == Err::<Execution, String>(msg)
                        },
                        PipelineError::Compiler(msg) => {
                            &&& added.len() == 2
                            &&& added[0] is Ok
                            &&& added[1] == Err::<Execution, String>(msg)
                        },
                        PipelineError::Assembler(msg) => {
                            &&& !driver_options@.stop_after_compilation
                            &&& added.len() == 3
                            &&& added[0] is Ok
                            &&& added[1] is Ok
                            &&& added[2] == Err::<Execution, String>(msg)
                        },
                    },
                }
            }),
            match r {
                Ok(status) => {
                    &&& status == ExitStatus::Success
                    &&& if driver_options@.stop_after_compilation {
                        final(driver).issued() == old(driver).issued() + seq![
                            spec_preprocess_command(old(driver).options_model()),
                            spec_compile_command(old(driver).options_model()),
                        ]
                    } else {
                        final(driver).issued() == old(driver).issued() + seq![
                            spec_preprocess_command(old(driver).options_model()),
                            spec_compile_command(old(driver).options_model()),
                            spec_assemble_command(old(driver).options_model()),
                        ]
                    }
                },
                Err(e) => match e {
                    PipelineError::Preprocessor(_) => final(driver).issued() == old(driver).issued()
                        + seq![spec_preprocess_command(old(driver).options_model())],
                    PipelineError::Compiler(_) => final(driver).issued() == old(driver).issued()
                        + seq![
                        spec_preprocess_command(old(driver).options_model()),
                        spec_compile_command(old(driver).options_model()),
                    ],
                    PipelineError::Assembler(_) => {
                        &&& !driver_options@.stop_after_compilation
                        &&& final(driver).issued() == old(driver).issued() + seq![
                            spec_preprocess_command(old(driver).options_model()),
                            spec_compile_command(old(driver).options_model()),
                            spec_assemble_command(old(driver).options_model()),
                        ]
                    },
                },
            },
    ;
}

/// The production controller.
pub struct DefaultDriverController {}

impl DefaultDriverController {
    pub fn new() -> (r: Self) {
        DefaultDriverController {  }
    }
}

impl Default for DefaultDriverController {
    fn default() -> (r: Self) {
        DefaultDriverController {  }
    }
}

impl DriverController for DefaultDriverController {
    fn drive<D: Driver>(&self, driver_options: &DriverOptions, driver: &mut D) -> (r: Result<
        ExitStatus,
        PipelineError,
    >) {
        let ghost d0 = *driver;
        let ghost base = d0.outcomes().len() as int;

        // Preprocess...
        let preprocessed = driver.preprocess();
        let ghost o1 = preprocessed;
        match preprocessed {
            Ok(_) => {},
            Err(err) => {
                proof {
                    assert(driver.issued() =~= d0.issued() + seq![
                        spec_preprocess_command(d0.options_model()),
                    ]);
                    assert(driver.outcomes().take(base) =~= d0.outcomes());
                    assert(driver.outcomes().skip(base) =~= seq![o1]);
                }
                return Err(PipelineError::Preprocessor(err));
            },
        }

        // Compile...
        let compiled = driver.compile();
        let ghost o2 = compiled;
        match compiled {
            Ok(_) => {},
            Err(err) => {
                proof {
                    assert(driver.issued() =~= d0.issued() + seq![
                        spec_preprocess_command(d0.options_model()),
                        spec_compile_command(d0.options_model()),
                    ]);
                    assert(driver.outcomes().take(base) =~= d0.outcomes());
                    assert(driver.outcomes().skip(base) =~= seq![o1, o2]);
                }
                return Err(PipelineError::Compiler(err));
            },
        }

        if driver_options.stop_after_compilation {
            proof {
                assert(driver.issued() =~= d0.issued() + seq![
                    spec_preprocess_command(d0.options_model()),
                    spec_compile_command(d0.options_model()),
                ]);
                assert(driver.outcomes().take(base) =~= d0.outcomes());
                assert(driver.outcomes().skip(base) =~= seq![o1, o2]);
            }
            return Ok(ExitStatus::Success);
        }

        // Assemble...
        let assembled = driver.assemble();
        let ghost o3 = assembled;
        match assembled {
            Ok(_) => {},
            Err(err) => {
                proof {
                    assert(driver.issued() =~= d0.issued() + seq![
                        spec_preprocess_command(d0.options_model()),
                        spec_compile_command(d0.options_model()),
                        spec_assemble_command(d0.options_model()),
                    ]);
                    assert(driver.outcomes().take(base) =~= d0.outcomes());
                    assert(driver.outcomes().skip(base) =~= seq![o1, o2, o3]);
                }
                return Err(PipelineError::Assembler(err));
            },
        }

        proof {
            assert(driver.issued() =~= d0.issued() + seq![
                spec_preprocess_command(d0.options_model()),
                spec_compile_command(d0.options_model()),
                spec_assemble_command(d0.options_model()),
            ]);
            assert(driver.outcomes().take(base) =~= d0.outcomes());
            assert(driver.outcomes().skip(base) =~= seq![o1, o2, o3]);
        }
        Ok(ExitStatus::Success)
    }
}

} // verus!
