use crate::compiler::CompilerOptions;
use crate::compiler::CompilerOptionsModel;
use crate::target_platform::TargetPlatform;
use crate::text::ends_with_ignore_case;
use crate::text::spec_ends_with_ignore_case;
use vstd::prelude::*;
use vstd::string::StringExecFns;

verus! {

/// The outcome validation owes for the given backend command-line values:
/// the positional file must be named, carry the preprocessed-source
/// extension (matched case-insensitively) and exist; an explicit output
/// path, when given, must carry the assembly extension; the architecture
/// defaults when omitted.
pub open spec fn spec_validate_compiler(
    file: Option<Seq<char>>,
    file_exists: bool,
    output: Option<Seq<char>>,
    lex: bool,
    parse: bool,
    codegen: bool,
    arch: Option<TargetPlatform>,
) -> Result<CompilerOptionsModel, Seq<char>> {
    match file {
        None => Err("preprocessed C filename (.i) not supplied"@),
        Some(f) => if !spec_ends_with_ignore_case(f, ".i"@) {
            Err("'"@ + f + "' is not a preprocessed C filename (.i)"@)
        } else if !file_exists {
            Err("'"@ + f + "' could not be found"@)
        } else {
            match output {
                Some(o) => if spec_ends_with_ignore_case(o, ".asm"@) {
                    Ok(spec_compiler_options(f, Some(o), lex, parse, codegen, arch))
                } else {
                    Err("'"@ + o + "' is not an assembler file (.asm)"@)
                },
                None => Ok(spec_compiler_options(f, None, lex, parse, codegen, arch)),
            }
        },
    }
}

/// The options a valid backend command line yields.
pub open spec fn spec_compiler_options(
    c_file: Seq<char>,
    asm_file: Option<Seq<char>>,
    lex: bool,
    parse: bool,
    codegen: bool,
    arch: Option<TargetPlatform>,
) -> CompilerOptionsModel {
    CompilerOptionsModel {
        c_file: c_file,
        asm_file: asm_file,
        lex: lex,
        parse: parse,
        codegen: codegen,
        target_platform: match arch {
            Some(t) => t,
            None => TargetPlatform::Transputer,
        },
    }
}

/// Validates the parsed command line of the backend compiler and builds the
/// options of the run. `file_exists` reports whether the named file is
/// present; the caller, which alone touches the file system, supplies it.
pub fn validate_command_line(
    file: Option<String>,
    file_exists: bool,
    output: Option<String>,
    lex: bool,
    parse: bool,
    codegen: bool,
    arch: Option<TargetPlatform>,
) -> (r: Result<CompilerOptions, String>)
    ensures
        ({
            let expected = spec_validate_compiler(
                file.deep_view(),
                file_exists,
                output.deep_view(),
                lex,
                parse,
                codegen,
                arch,
            );
            match r {
                Ok(opts) => expected is Ok && opts@ == expected->Ok_0,
                Err(m) => expected is Err && m@ == expected->Err_0,
            }
        }),
{
    match file {
        None => Err("preprocessed C filename (.i) not supplied".to_owned()),
        Some(f) => {
            if !ends_with_ignore_case(f.as_str(), ".i") {
                let mut m = "'".to_owned();
                m.append(f.as_str());
                m.append("' is not a preprocessed C filename (.i)");
                Err(m)
            } else if !file_exists {
                let mut m = "'".to_owned();
                m.append(f.as_str());
                m.append("' could not be found");
                Err(m)
            } else {
                let asm_file = match output {
                    Some(o) => {
                        if ends_with_ignore_case(o.as_str(), ".asm") {
                            Some(o)
                        } else {
                            let mut m = "'".to_owned();
                            m.append(o.as_str());
                            m.append("' is not an assembler file (.asm)");
                            return Err(m);
                        }
                    },
                    None => None,
                };
                Ok(
                    CompilerOptions {
                        c_file: f,
                        asm_file: asm_file,
                        lex: lex,
                        parse: parse,
                        codegen: codegen,
                        target_platform: match arch {
                            Some(t) => t,
                            None => TargetPlatform::Transputer,
                        },
                    },
                )
            }
        },
    }
}

} // verus!
