use crate::exit_status::ExitStatus;
use crate::lexer::lexer;
use crate::lexer::spec_lex;
use crate::target_platform::TargetPlatform;
use vstd::prelude::*;

verus! {

/// The validated configuration of one backend-compiler run: the preprocessed
/// source, an optional explicit output path, the stop-after flags and the
/// target architecture.
#[derive(Debug, Clone)]
pub struct CompilerOptions {
    /// Path of the preprocessed C file to compile.
    pub c_file: String,
    /// Explicit output path for the assembly file, when one was given.
    pub asm_file: Option<String>,
    /// Stop after lexical analysis.
    pub lex: bool,
    /// Stop after parsing.
    pub parse: bool,
    /// Stop after assembly generation.
    pub codegen: bool,
    /// The architecture the run targets.
    pub target_platform: TargetPlatform,
}

/// The mathematical value of a [`CompilerOptions`].
pub ghost struct CompilerOptionsModel {
    pub c_file: Seq<char>,
    pub asm_file: Option<Seq<char>>,
    pub lex: bool,
    pub parse: bool,
    pub codegen: bool,
    pub target_platform: TargetPlatform,
}

impl View for CompilerOptions {
    type V = CompilerOptionsModel;

    open spec fn view(&self) -> CompilerOptionsModel {
        CompilerOptionsModel {
            c_file: self.c_file@,
            asm_file: match self.asm_file {
                Some(s) => Some(s@),
                None => None,
            },
            lex: self.lex,
            parse: self.parse,
            codegen: self.codegen,
            target_platform: self.target_platform,
        }
    }
}

/// The front-end compiler proper. Lexical analysis is the one stage
/// implemented so far; the later stages are placeholders.
pub struct Compiler {}

impl Compiler {
    pub fn new() -> (r: Self) {
        Compiler {  }
    }

    /// Processes one preprocessed source text under `options`, entirely
    /// in-process: no external tool is ever invoked here.
    ///
    /// In lex-only mode the text is tokenized: clean lexing reports success
    /// and any accumulated lexical error reports the data-format status,
    /// distinct from generic failure. Outside lex-only mode no further stage
    /// is implemented yet, so success is reported.
    pub fn compile(&self, options: &CompilerOptions, source: &str) -> (r: ExitStatus)
        ensures
            r == if options.lex && spec_lex(source@).errors.len() > 0 {
                ExitStatus::DataErr
            } else {
                ExitStatus::Success
            },
    {
        if options.lex {
            match lexer(source) {
                Ok(_) => ExitStatus::Success,
                Err(_) => ExitStatus::DataErr,
            }
        } else {
            ExitStatus::Success
        }
    }
}

} // verus!
