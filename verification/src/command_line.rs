use crate::driver::DriverOptions;
use crate::driver::OptionsModel;
use crate::target_platform::TargetPlatform;
use crate::text::ends_with_ignore_case;
use crate::text::spec_ends_with_ignore_case;
use vstd::prelude::*;
use vstd::string::StringExecFns;

verus! {

/// The outcome validation owes for the given command-line values: the source
/// file must be named, carry the C extension (matched case-insensitively)
/// and exist; the architecture defaults when omitted. Validation failures
/// surface before any phase runs.
pub open spec fn spec_validate_driver(
    file: Option<Seq<char>>,
    file_exists: bool,
    lex: bool,
    parse: bool,
    codegen: bool,
    save_temps: bool,
    stop_after_compilation: bool,
    arch: Option<TargetPlatform>,
) -> Result<OptionsModel, Seq<char>> {
    match file {
        None => Err("C filename not supplied"@),
        Some(f) => if !spec_ends_with_ignore_case(f, ".c"@) {
            Err("'"@ + f + "' is not a C filename"@)
        } else if !file_exists {
            Err("'"@ + f + "' could not be found"@)
        } else {
            Ok(
                OptionsModel {
                    c_file: f,
                    lex: lex,
                    parse: parse,
                    codegen: codegen,
                    save_temps: save_temps,
                    stop_after_compilation: stop_after_compilation,
                    target_platform: match arch {
                        Some(t) => t,
                        None => TargetPlatform::Transputer,
                    },
                },
            )
        },
    }
}

/// Validates the parsed command line of the driver and builds the options of
/// the run. `file_exists` reports whether the named file is present; the
/// caller, which alone touches the file system, supplies it.
pub fn validate_command_line(
    file: Option<String>,
    file_exists: bool,
    lex: bool,
    parse: bool,
    codegen: bool,
    save_temps: bool,
    stop_after_compilation: bool,
    arch: Option<TargetPlatform>,
) -> (r: Result<DriverOptions, String>)
    ensures
        ({
            let expected = spec_validate_driver(
                file.deep_view(),
                file_exists,
                lex,
                parse,
                codegen,
                save_temps,
                stop_after_compilation,
                arch,
            );
            match r {
                Ok(opts) => expected is Ok && opts@ == expected->Ok_0,
                Err(m) => expected is Err && m@ == expected->Err_0,
            }
        }),
{
    match file {
        None => Err("C filename not supplied".to_owned()),
        Some(f) => {
            if !ends_with_ignore_case(f.as_str(), ".c") {
                let mut m = "'".to_owned();
                m.append(f.as_str());
                m.append("' is not a C filename");
                Err(m)
            } else if !file_exists {
                let mut m = "'".to_owned();
                m.append(f.as_str());
                m.append("' could not be found");
                Err(m)
            } else {
                Ok(
                    DriverOptions {
                        c_file: f,
                        lex: lex,
                        parse: parse,
                        codegen: codegen,
                        save_temps: save_temps,
                        stop_after_compilation: stop_after_compilation,
                        target_platform: match arch {
                            Some(t) => t,
                            None => TargetPlatform::Transputer,
                        },
                    },
                )
            }
        },
    }
}

} // verus!
