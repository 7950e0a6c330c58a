use crate::executor::ExecError;
use crate::executor::Execution;
use crate::executor::Executor;
use crate::suffix_translator::spec_with_extension;
use crate::suffix_translator::SuffixTranslator;
use crate::target_platform::spec_canonical_name;
use crate::target_platform::TargetPlatform;
use vstd::prelude::*;

verus! {

/// The validated configuration of one compilation run. Created once by the
/// command-line layer, owned by the controller for the run's duration, never
/// mutated after creation.
#[derive(Debug, Clone)]
pub struct DriverOptions {
    /// Path of the C source file to compile.
    pub c_file: String,
    /// Stop the backend after lexical analysis.
    pub lex: bool,
    /// Stop the backend after parsing.
    pub parse: bool,
    /// Stop the backend after assembly generation.
    pub codegen: bool,
    /// Retain temporary artifacts instead of deleting them.
    pub save_temps: bool,
    /// Stop the whole pipeline after the compile phase.
    pub stop_after_compilation: bool,
    /// The architecture the run targets.
    pub target_platform: TargetPlatform,
}

/// The mathematical value of a [`DriverOptions`].
pub ghost struct OptionsModel {
    pub c_file: Seq<char>,
    pub lex: bool,
    pub parse: bool,
    pub codegen: bool,
    pub save_temps: bool,
    pub stop_after_compilation: bool,
    pub target_platform: TargetPlatform,
}

impl View for DriverOptions {
    type V = OptionsModel;

    open spec fn view(&self) -> OptionsModel {
        OptionsModel {
            c_file: self.c_file@,
            lex: self.lex,
            parse: self.parse,
            codegen: self.codegen,
            save_temps: self.save_temps,
            stop_after_compilation: self.stop_after_compilation,
            target_platform: self.target_platform,
        }
    }
}

/// The preprocessor invocation: the system preprocessor reads the source
/// file and writes the preprocessed artifact.
pub open spec fn spec_preprocess_command(m: OptionsModel) -> Seq<Seq<char>> {
    seq!["gcc"@, "-E"@, "-P"@, m.c_file, "-o"@, spec_with_extension(m.c_file, "i"@)]
}

/// The backend-compiler invocation: stop-after flags are forwarded verbatim
/// in a fixed order when set, the architecture flag appears exactly for the
/// non-default architectures, then the preprocessed artifact is read and the
/// assembly artifact written.
pub open spec fn spec_compile_command(m: OptionsModel) -> Seq<Seq<char>> {
    seq!["rcc1"@] + (if m.lex {
        seq!["--lex"@]
    } else {
        Seq::<Seq<char>>::empty()
    }) + (if m.parse {
        seq!["--parse"@]
    } else {
        Seq::<Seq<char>>::empty()
    }) + (if m.codegen {
        seq!["--codegen"@]
    } else {
        Seq::<Seq<char>>::empty()
    }) + (if m.target_platform != TargetPlatform::Transputer {
        seq!["--architecture"@, spec_canonical_name(m.target_platform)]
    } else {
        Seq::<Seq<char>>::empty()
    }) + seq![
        spec_with_extension(m.c_file, "i"@),
        "-o"@,
        spec_with_extension(m.c_file, "asm"@),
    ]
}

/// The assembler invocation: it reads the assembly artifact and writes both
/// the binary and the listing artifacts.
pub open spec fn spec_assemble_command(m: OptionsModel) -> Seq<Seq<char>> {
    seq![
        "tmasm"@,
        spec_with_extension(m.c_file, "asm"@),
        "-o"@,
        spec_with_extension(m.c_file, "bin"@),
        "-l"@,
        spec_with_extension(m.c_file, "lst"@),
    ]
}

/// Builds the preprocessor command line for `options`.
pub fn build_preprocess_command(options: &DriverOptions) -> (r: Vec<String>)
    ensures
        r.deep_view() == spec_preprocess_command(options@),
{
    let xlat = SuffixTranslator::new(options.c_file.clone());
    let preprocessed = xlat.preprocessor();
    let mut args: Vec<String> = Vec::new();
    args.push("gcc".to_owned());
    args.push("-E".to_owned());
    args.push("-P".to_owned());
    args.push(options.c_file.clone());
    args.push("-o".to_owned());
    args.push(preprocessed);
    proof {
        assert(args.deep_view() =~~= spec_preprocess_command(options@));
    }
    args
}

/// Builds the backend-compiler command line for `options`.
pub fn build_compile_command(options: &DriverOptions) -> (r: Vec<String>)
    ensures
        r.deep_view() == spec_compile_command(options@),
{
    let xlat = SuffixTranslator::new(options.c_file.clone());
    let preprocessed = xlat.preprocessor();
    let assembly = xlat.assembler();
    let mut args: Vec<String> = Vec::new();
    args.push("rcc1".to_owned());
    if options.lex {
        args.push("--lex".to_owned());
    }
    if options.parse {
        args.push("--parse".to_owned());
    }
    if options.codegen {
        args.push("--codegen".to_owned());
    }
    if options.target_platform != TargetPlatform::Transputer {
        args.push("--architecture".to_owned());
        args.push(options.target_platform.canonical_name());
    }
    args.push(preprocessed);
    args.push("-o".to_owned());
    args.push(assembly);
    proof {
        assert(args.deep_view() =~~= spec_compile_command(options@));
    }
    args
}

/// Builds the assembler command line for `options`.
pub fn build_assemble_command(options: &DriverOptions) -> (r: Vec<String>)
    ensures
        r.deep_view() == spec_assemble_command(options@),
{
    let xlat = SuffixTranslator::new(options.c_file.clone());
    let assembly = xlat.assembler();
    let binary = xlat.binary();
    let listing = xlat.listing();
    let mut args: Vec<String> = Vec::new();
    args.push("tmasm".to_owned());
    args.push(assembly);
    args.push("-o".to_owned());
    args.push(binary);
    args.push("-l".to_owned());
    args.push(listing);
    proof {
        assert(args.deep_view() =~~= spec_assemble_command(options@));
    }
    args
}

/// The last character of a derived artifact path: when the path was changed,
/// it ends with the last character of the new extension; when it was
/// returned unchanged, it is empty or ends with a separator.
proof fn lemma_with_extension_last(p: Seq<char>, ext: Seq<char>)
    requires
        ext.len() > 0,
    ensures
        spec_with_extension(p, ext).len() == 0 || spec_with_extension(p, ext).last() == ext.last()
            || spec_with_extension(p, ext).last() == '/',
{
    crate::suffix_translator::lemma_file_name_start_bounds(p);
    crate::suffix_translator::lemma_extension_dot_bounds(p);
    if crate::suffix_translator::spec_file_name_start(p) == p.len() {
        if p.len() > 0 && p[p.len() - 1] != '/' {
            crate::suffix_translator::lemma_file_name_start_bounds(p.drop_last());
            assert(false);
        }
    } else {
        let r = p.take(crate::suffix_translator::spec_stem_end(p)) + seq!['.'] + ext;
        assert(r.last() == ext.last());
    }
}

/// A concatenation contains an element only if one of its parts does.
proof fn lemma_concat_not_contains<A>(a: Seq<A>, b: Seq<A>, x: A)
    requires
        !a.contains(x),
        !b.contains(x),
    ensures
        !(a + b).contains(x),
{
    if (a + b).contains(x) {
        let i = choose|i: int| 0 <= i < (a + b).len() && (a + b)[i] == x;
        if i < a.len() {
            assert(a[i] == x);
        } else {
            assert(b[i - a.len()] == x);
        }
    }
}

/// Architecture-conditional argument invariant: the backend-compiler command
/// for the default architecture carries no architecture flag at all, while
/// for either other architecture it carries the flag followed by that
/// architecture's exact canonical name.
pub proof fn lemma_architecture_flag(m: OptionsModel)
    ensures
        m.target_platform == TargetPlatform::Transputer ==> !spec_compile_command(m).contains(
            "--architecture"@,
        ),
        m.target_platform != TargetPlatform::Transputer ==> exists|k: int|
            0 <= k && k + 1 < spec_compile_command(m).len() && #[trigger] spec_compile_command(
                m,
            )[k] == "--architecture"@ && spec_compile_command(m)[k + 1] == spec_canonical_name(
                m.target_platform,
            ),
{
    reveal_strlit("rcc1");
    reveal_strlit("--lex");
    reveal_strlit("--parse");
    reveal_strlit("--codegen");
    reveal_strlit("--architecture");
    reveal_strlit("-o");
    reveal_strlit("i");
    reveal_strlit("asm");
    assert("rcc1"@.len() == 4);
    assert("--lex"@.len() == 5);
    assert("--parse"@.len() == 7);
    assert("--codegen"@.len() == 9);
    assert("--architecture"@.len() == 14);
    assert("-o"@.len() == 2);
    assert("i"@.len() == 1);
    assert("asm"@.len() == 3);
    assert("--architecture"@[13] == 'e');
    assert("i"@[0] == 'i');
    assert("asm"@[2] == 'm');
    let cmd = spec_compile_command(m);
    let flag = "--architecture"@;
    if m.target_platform == TargetPlatform::Transputer {
        lemma_with_extension_last(m.c_file, "i"@);
        lemma_with_extension_last(m.c_file, "asm"@);
        let pre = spec_with_extension(m.c_file, "i"@);
        let assembly_path = spec_with_extension(m.c_file, "asm"@);
        assert(pre != flag);
        assert(assembly_path != flag);
        let s0 = seq!["rcc1"@];
        let s1 = if m.lex {
            seq!["--lex"@]
        } else {
            Seq::<Seq<char>>::empty()
        };
        let s2 = if m.parse {
            seq!["--parse"@]
        } else {
            Seq::<Seq<char>>::empty()
        };
        let s3 = if m.codegen {
            seq!["--codegen"@]
        } else {
            Seq::<Seq<char>>::empty()
        };
        let s4 = Seq::<Seq<char>>::empty();
        let s5 = seq![pre, "-o"@, assembly_path];
        assert(cmd == s0 + s1 + s2 + s3 + s4 + s5);
        assert(!s0.contains(flag)) by {
            if s0.contains(flag) {
                let i = choose|i: int| 0 <= i < s0.len() && s0[i] == flag;
            }
        }
        assert(!s1.contains(flag)) by {
            if s1.contains(flag) {
                let i = choose|i: int| 0 <= i < s1.len() && s1[i] == flag;
            }
        }
        assert(!s2.contains(flag)) by {
            if s2.contains(flag) {
                let i = choose|i: int| 0 <= i < s2.len() && s2[i] == flag;
            }
        }
        assert(!s3.contains(flag)) by {
            if s3.contains(flag) {
                let i = choose|i: int| 0 <= i < s3.len() && s3[i] == flag;
            }
        }
        assert(!s4.contains(flag)) by {
            if s4.contains(flag) {
                let i = choose|i: int| 0 <= i < s4.len() && s4[i] == flag;
            }
        }
        assert(!s5.contains(flag)) by {
            if s5.contains(flag) {
                let i = choose|i: int| 0 <= i < s5.len() && s5[i] == flag;
            }
        }
        lemma_concat_not_contains(s0, s1, flag);
        lemma_concat_not_contains(s0 + s1, s2, flag);
        lemma_concat_not_contains(s0 + s1 + s2, s3, flag);
        lemma_concat_not_contains(s0 + s1 + s2 + s3, s4, flag);
        lemma_concat_not_contains(s0 + s1 + s2 + s3 + s4, s5, flag);
    } else {
        let k = 1 + (if m.lex {
            1int
        } else {
            0
        }) + (if m.parse {
            1int
        } else {
            0
        }) + (if m.codegen {
            1int
        } else {
            0
        });
        assert(cmd[k] == flag);
        assert(cmd[k + 1] == spec_canonical_name(m.target_platform));
        assert(0 <= k && k + 1 < cmd.len());
    }
}

/// The capability to delete one file. The phase driver requests deletions of
/// temporary artifacts through it and never learns more than whether a
/// request succeeded: cleanup is best-effort by design.
pub trait FileRemover {
    /// Every path whose removal has been requested, in order. An
    /// implementation backed by the file system, living outside the
    /// verifier, leaves this at its default, about which nothing is known;
    /// the recording implementation overrides it with its record.
    open spec fn requested(&self) -> Seq<Seq<char>> {
        vstd::pervasive::arbitrary()
    }

    /// Requests removal of the file at `path`; returns whether the removal
    /// succeeded. A failed removal is tolerated and never escalated.
    fn remove_file(&mut self, path: &String) -> (r: bool)
        ensures
            final(self).requested() == old(self).requested().push(path@),
    ;
}

/// A file remover for tests: it records each request and reports success
/// without touching any file system.
pub struct RecordingRemover {
    requests: Vec<String>,
}

impl FileRemover for RecordingRemover {
    closed spec fn requested(&self) -> Seq<Seq<char>> {
        self.requests.deep_view()
    }

    fn remove_file(&mut self, path: &String) -> (r: bool) {
        self.requests.push(path.clone());
        proof {
            assert(self.requests.deep_view() =~= old(self).requests.deep_view().push(path@));
        }
        true
    }
}

impl RecordingRemover {
    pub fn new() -> (r: Self)
        ensures
            r.requested() == Seq::<Seq<char>>::empty(),
    {
        let r = RecordingRemover { requests: Vec::new() };
        proof {
            assert(r.requested() =~= Seq::<Seq<char>>::empty());
        }
        r
    }

    /// The removal requests recorded so far, in order.
    pub fn requests(&self) -> (r: &Vec<String>)
        ensures
            r.deep_view() == self.requested(),
    {
        &self.requests
    }
}

/// One pipeline phase driver: it knows how to invoke each compilation phase
/// as one external-tool call built from the current options, and owns the
/// temporary-artifact lifecycle. The contract pins down, for every phase,
/// exactly which command is issued, which cleanup is requested, and that the
/// returned value is exactly the outcome this phase reports; which outcome
/// the external tool produces belongs to the outside world.
pub trait Driver {
    /// The options this run was configured with.
    spec fn options_model(&self) -> OptionsModel;

    /// Every external command issued so far, in order.
    spec fn issued(&self) -> Seq<Seq<Seq<char>>>;

    /// Every temporary artifact whose removal has been requested so far.
    spec fn cleanups(&self) -> Seq<Seq<char>>;

    /// Every phase outcome reported so far, in order: the execution handed
    /// back on success, or the phase's message on failure.
    spec fn outcomes(&self) -> Seq<Result<Execution, String>>;

    /// Runs the preprocessor against the source file, writing the
    /// preprocessed artifact. Deletes nothing: the preprocessed file is the
    /// next phase's input.
    fn preprocess(&mut self) -> (r: Result<Execution, String>)
        ensures
            final(self).options_model() == old(self).options_model(),
            final(self).issued() == old(self).issued().push(
                spec_preprocess_command(old(self).options_model()),
            ),
            final(self).cleanups() == old(self).cleanups(),
            final(self).outcomes() == old(self).outcomes().push(r),
    ;

    /// Runs the backend compiler against the preprocessed artifact, writing
    /// the assembly artifact. After the call completes — whatever its
    /// outcome — removal of the preprocessed artifact is requested, unless
    /// `save-temps` was set.
    fn compile(&mut self) -> (r: Result<Execution, String>)
        ensures
            final(self).options_model() == old(self).options_model(),
            final(self).issued() == old(self).issued().push(
                spec_compile_command(old(self).options_model()),
            ),
            final(self).cleanups() == if old(self).options_model().save_temps {
                old(self).cleanups()
            } else {
                old(self).cleanups().push(
                    spec_with_extension(old(self).options_model().c_file, "i"@),
                )
            },
            final(self).outcomes() == old(self).outcomes().push(r),
    ;

    /// Runs the assembler against the assembly artifact, producing the
    /// binary and the listing. Afterwards, removal of the assembly artifact
    /// is requested under the same `save-temps` policy.
    fn assemble(&mut self) -> (r: Result<Execution, String>)
        ensures
            final(self).options_model() == old(self).options_model(),
            final(self).issued() == old(self).issued().push(
                spec_assemble_command(old(self).options_model()),
            ),
            final(self).cleanups() == if old(self).options_model().save_temps {
                old(self).cleanups()
            } else {
                old(self).cleanups().push(
                    spec_with_extension(old(self).options_model().c_file, "asm"@),
                )
            },
            final(self).outcomes() == old(self).outcomes().push(r),
    ;
}

/// What reporting an executor outcome verbatim owes of a phase result: a
/// successful execution is handed back unchanged, a failure as exactly its
/// rendered message — no retry, no substitution.
pub open spec fn spec_reports_verbatim(
    outcome: Result<Execution, ExecError>,
    r: Result<Execution, String>,
) -> bool {
    match (outcome, r) {
        (Ok(execution), Ok(reported)) => reported == execution,
        (Err(err), Err(message)) => message@ == err.spec_message(),
        _ => false,
    }
}

/// One discrete stage of compilation, backed by exactly one external tool
/// invocation.
#[derive(Copy, Clone, Debug, PartialEq, Eq, Structural)]
pub enum Phase {
    Preprocess,
    Compile,
    Assemble,
}

/// The command that `phase` issues under the options `m`.
pub open spec fn spec_phase_command(phase: Phase, m: OptionsModel) -> Seq<Seq<char>> {
    match phase {
        Phase::Preprocess => spec_preprocess_command(m),
        Phase::Compile => spec_compile_command(m),
        Phase::Assemble => spec_assemble_command(m),
    }
}

/// The production phase driver: it builds each phase's command line, issues
/// it through the injected executor, and applies the save-temps cleanup
/// policy through the injected file remover.
///
/// A missing preprocessed artifact is deliberately not pre-checked before
/// the compile phase runs: the backend tool's own error reporting is
/// authoritative, so the phase attempts to run regardless.
pub struct DefaultDriver<E: Executor, R: FileRemover> {
    driver_options: DriverOptions,
    executor: E,
    remover: R,
    outcome_log: Ghost<Seq<Result<Execution, String>>>,
}

impl<E: Executor, R: FileRemover> DefaultDriver<E, R> {
    /// The injected executor, as a value the contracts can speak of.
    pub closed spec fn spec_executor(&self) -> E {
        self.executor
    }

    /// The injected file remover, as a value the contracts can speak of.
    pub closed spec fn spec_remover(&self) -> R {
        self.remover
    }

    pub fn new(driver_options: DriverOptions, executor: E, remover: R) -> (r: Self)
        ensures
            r.options_model() == driver_options@,
            r.issued() == executor.history(),
            r.cleanups() == remover.requested(),
            r.outcomes() == Seq::<Result<Execution, String>>::empty(),
            r.spec_executor() == executor,
            r.spec_remover() == remover,
    {
        Self { driver_options, executor, remover, outcome_log: Ghost(Seq::empty()) }
    }

    /// The injected executor, for inspecting what was issued.
    pub fn executor(&self) -> (r: &E)
        ensures
            *r == self.spec_executor(),
            r.history() == self.issued(),
    {
        &self.executor
    }

    /// The injected file remover, for inspecting what cleanup was requested.
    pub fn remover(&self) -> (r: &R)
        ensures
            *r == self.spec_remover(),
            r.requested() == self.cleanups(),
    {
        &self.remover
    }
}

impl<E: Executor, R: FileRemover> Driver for DefaultDriver<E, R> {
    closed spec fn options_model(&self) -> OptionsModel {
        self.driver_options@
    }

    closed spec fn issued(&self) -> Seq<Seq<Seq<char>>> {
        self.executor.history()
    }

    closed spec fn cleanups(&self) -> Seq<Seq<char>> {
        self.remover.requested()
    }

    closed spec fn outcomes(&self) -> Seq<Result<Execution, String>> {
        self.outcome_log@
    }

    fn preprocess(&mut self) -> (r: Result<Execution, String>)
        ensures
            ({
                let before = old(self).spec_executor().outcomes();
                let after = final(self).spec_executor().outcomes();
                &&& after.len() == before.len() + 1
                &&& after.take(before.len() as int) == before
                &&& spec_reports_verbatim(after.last(), r)
            }),
    {
        let args = build_preprocess_command(&self.driver_options);
        let result = match self.executor.run(args) {
            Ok(execution) => Ok(execution),
            Err(err) => Err(err.message()),
        };
        self.outcome_log = Ghost(self.outcome_log@.push(result));
        proof {
            assert(self.executor.outcomes().take(old(self).executor.outcomes().len() as int)
                =~= old(self).executor.outcomes());
        }
        result
    }

    fn compile(&mut self) -> (r: Result<Execution, String>)
        ensures
            ({
                let before = old(self).spec_executor().outcomes();
                let after = final(self).spec_executor().outcomes();
                &&& after.len() == before.len() + 1
                &&& after.take(before.len() as int) == before
                &&& spec_reports_verbatim(after.last(), r)
            }),
    {
        let args = build_compile_command(&self.driver_options);
        let result = match self.executor.run(args) {
            Ok(execution) => Ok(execution),
            Err(err) => Err(err.message()),
        };
        self.outcome_log = Ghost(self.outcome_log@.push(result));
        proof {
            assert(self.executor.outcomes().take(old(self).executor.outcomes().len() as int)
                =~= old(self).executor.outcomes());
        }
        // Tidy up after the preprocessor unless retention was requested;
        // this happens whether or not the compiler could be run, and its own
        // success or failure never alters the reported result.
        if !self.driver_options.save_temps {
            let xlat = SuffixTranslator::new(self.driver_options.c_file.clone());
            let preprocessed = xlat.preprocessor();
            let _ = self.remover.remove_file(&preprocessed);
        }
        result
    }

    fn assemble(&mut self) -> (r: Result<Execution, String>)
        ensures
            ({
                let before = old(self).spec_executor().outcomes();
                let after = final(self).spec_executor().outcomes();
                &&& after.len() == before.len() + 1
                &&& after.take(before.len() as int) == before
                &&& spec_reports_verbatim(after.last(), r)
            }),
    {
        let args = build_assemble_command(&self.driver_options);
        let result = match self.executor.run(args) {
            Ok(execution) => Ok(execution),
            Err(err) => Err(err.message()),
        };
        self.outcome_log = Ghost(self.outcome_log@.push(result));
        proof {
            assert(self.executor.outcomes().take(old(self).executor.outcomes().len() as int)
                =~= old(self).executor.outcomes());
        }
        // Tidy up after the assembler unless retention was requested; its
        // own success or failure never alters the reported result.
        if !self.driver_options.save_temps {
            let xlat = SuffixTranslator::new(self.driver_options.c_file.clone());
            let assembly = xlat.assembler();
            let _ = self.remover.remove_file(&assembly);
        }
        result
    }
}

/// A phase driver for tests: instead of invoking external tools it hands out
/// pre-arranged outcomes, once each, while recording which phases ran and
/// which cleanups were requested. Its contract-visible history is exactly
/// what the production driver's would be.
pub struct ScriptedDriver {
    driver_options: DriverOptions,
    preprocess_outcome: Option<Result<Execution, String>>,
    compile_outcome: Option<Result<Execution, String>>,
    assemble_outcome: Option<Result<Execution, String>>,
    calls: Vec<Phase>,
    cleanup_requests: Vec<String>,
    outcome_log: Ghost<Seq<Result<Execution, String>>>,
}

impl ScriptedDriver {
    /// The phases invoked so far, in order.
    pub closed spec fn spec_calls(&self) -> Seq<Phase> {
        self.calls@
    }

    /// The outcome still arranged for the preprocess phase, if any.
    pub closed spec fn spec_preprocess_outcome(&self) -> Option<Result<Execution, String>> {
        self.preprocess_outcome
    }

    /// The outcome still arranged for the compile phase, if any.
    pub closed spec fn spec_compile_outcome(&self) -> Option<Result<Execution, String>> {
        self.compile_outcome
    }

    /// The outcome still arranged for the assemble phase, if any.
    pub closed spec fn spec_assemble_outcome(&self) -> Option<Result<Execution, String>> {
        self.assemble_outcome
    }

    /// Arranges one outcome per phase; a phase invoked more often than its
    /// outcome was provided reports a failure.
    pub fn new(
        driver_options: DriverOptions,
        preprocess_outcome: Option<Result<Execution, String>>,
        compile_outcome: Option<Result<Execution, String>>,
        assemble_outcome: Option<Result<Execution, String>>,
    ) -> (r: Self)
        ensures
            r.options_model() == driver_options@,
            r.issued() == Seq::<Seq<Seq<char>>>::empty(),
            r.cleanups() == Seq::<Seq<char>>::empty(),
            r.outcomes() == Seq::<Result<Execution, String>>::empty(),
            r.spec_calls() == Seq::<Phase>::empty(),
            r.spec_preprocess_outcome() == preprocess_outcome,
            r.spec_compile_outcome() == compile_outcome,
            r.spec_assemble_outcome() == assemble_outcome,
    {
        let r = ScriptedDriver {
            driver_options,
            preprocess_outcome,
            compile_outcome,
            assemble_outcome,
            calls: Vec::new(),
            cleanup_requests: Vec::new(),
            outcome_log: Ghost(Seq::empty()),
        };
        proof {
            assert(r.issued() =~= Seq::<Seq<Seq<char>>>::empty());
            assert(r.cleanups() =~= Seq::<Seq<char>>::empty());
        }
        r
    }

    /// The phases invoked so far, in order.
    pub fn calls(&self) -> (r: &Vec<Phase>)
        ensures
            r@ == self.spec_calls(),
    {
        &self.calls
    }

    /// The cleanup requests recorded so far, in order.
    pub fn cleanup_requests(&self) -> (r: &Vec<String>)
        ensures
            r.deep_view() == self.cleanups(),
    {
        &self.cleanup_requests
    }
}

impl Driver for ScriptedDriver {
    closed spec fn options_model(&self) -> OptionsModel {
        self.driver_options@
    }

    closed spec fn issued(&self) -> Seq<Seq<Seq<char>>> {
        self.calls@.map_values(|p: Phase| spec_phase_command(p, self.driver_options@))
    }

    closed spec fn cleanups(&self) -> Seq<Seq<char>> {
        self.cleanup_requests.deep_view()
    }

    closed spec fn outcomes(&self) -> Seq<Result<Execution, String>> {
        self.outcome_log@
    }

    fn preprocess(&mut self) -> (r: Result<Execution, String>)
        ensures
            old(self).spec_preprocess_outcome() matches Some(outcome) ==> r == outcome,
            old(self).spec_preprocess_outcome() is None ==> r is Err,
            final(self).spec_preprocess_outcome() is None,
            final(self).spec_compile_outcome() == old(self).spec_compile_outcome(),
            final(self).spec_assemble_outcome() == old(self).spec_assemble_outcome(),
    {
        self.calls.push(Phase::Preprocess);
        proof {
            assert(self.issued() =~= old(self).issued().push(
                spec_preprocess_command(old(self).options_model()),
            ));
        }
        let r = match self.preprocess_outcome.take() {
            Some(outcome) => outcome,
            None => Err("no scripted outcome left".to_owned()),
        };
        self.outcome_log = Ghost(self.outcome_log@.push(r));
        r
    }

    fn compile(&mut self) -> (r: Result<Execution, String>)
        ensures
            old(self).spec_compile_outcome() matches Some(outcome) ==> r == outcome,
            old(self).spec_compile_outcome() is None ==> r is Err,
            final(self).spec_compile_outcome() is None,
            final(self).spec_preprocess_outcome() == old(self).spec_preprocess_outcome(),
            final(self).spec_assemble_outcome() == old(self).spec_assemble_outcome(),
    {
        self.calls.push(Phase::Compile);
        proof {
            assert(self.issued() =~= old(self).issued().push(
                spec_compile_command(old(self).options_model()),
            ));
        }
        if !self.driver_options.save_temps {
            let xlat = SuffixTranslator::new(self.driver_options.c_file.clone());
            let preprocessed = xlat.preprocessor();
            self.cleanup_requests.push(preprocessed);
            proof {
                assert(self.cleanups() =~= old(self).cleanups().push(
                    spec_with_extension(old(self).options_model().c_file, "i"@),
                ));
            }
        }
        let r = match self.compile_outcome.take() {
            Some(outcome) => outcome,
            None => Err("no scripted outcome left".to_owned()),
        };
        self.outcome_log = Ghost(self.outcome_log@.push(r));
        r
    }

    fn assemble(&mut self) -> (r: Result<Execution, String>)
        ensures
            old(self).spec_assemble_outcome() matches Some(outcome) ==> r == outcome,
            old(self).spec_assemble_outcome() is None ==> r is Err,
            final(self).spec_assemble_outcome() is None,
            final(self).spec_preprocess_outcome() == old(self).spec_preprocess_outcome(),
            final(self).spec_compile_outcome() == old(self).spec_compile_outcome(),
    {
        self.calls.push(Phase::Assemble);
        proof {
            assert(self.issued() =~= old(self).issued().push(
                spec_assemble_command(old(self).options_model()),
            ));
        }
        if !self.driver_options.save_temps {
            let xlat = SuffixTranslator::new(self.driver_options.c_file.clone());
            let assembly = xlat.assembler();
            self.cleanup_requests.push(assembly);
            proof {
                assert(self.cleanups() =~= old(self).cleanups().push(
                    spec_with_extension(old(self).options_model().c_file, "asm"@),
                ));
            }
        }
        let r = match self.assemble_outcome.take() {
            Some(outcome) => outcome,
            None => Err("no scripted outcome left".to_owned()),
        };
        self.outcome_log = Ghost(self.outcome_log@.push(r));
        r
    }
}

} // verus!
