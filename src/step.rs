use vstd::prelude::*;
use vstd::utf8::decode_utf8;

use crate::aggregate::{aggregate_header, aggregate_text};
use crate::options::{first_bad_path, generator_options, options_for, GeneratorOptions, PathRole};
use crate::outputs::{bindings_output, bindings_text, module_stub, module_stub_text};

verus! {

/// The three files the step writes, all in the output directory.
#[derive(Clone, Copy, Debug, PartialEq, Eq, Structural)]
pub enum OutputFile {
    /// `bindgen-input.h`, the aggregate header.
    AggregateHeader,
    /// `bindings.rs`, the generated declarations.
    Bindings,
    /// `mod-bindings.rs`, the module stub.
    ModuleStub,
}

/// The name of each output file.
pub open spec fn file_name_text(f: OutputFile) -> Seq<char> {
    match f {
        OutputFile::AggregateHeader => "bindgen-input.h"@,
        OutputFile::Bindings => "bindings.rs"@,
        OutputFile::ModuleStub => "mod-bindings.rs"@,
    }
}

impl OutputFile {
    /// The file's name within the output directory.
    pub fn file_name(&self) -> (r: &'static str)
        ensures
            r@ == file_name_text(*self),
    {
        match self {
            OutputFile::AggregateHeader => "bindgen-input.h",
            OutputFile::Bindings => "bindings.rs",
            OutputFile::ModuleStub => "mod-bindings.rs",
        }
    }
}

/// Where the step stands.
#[derive(Clone, Copy, Debug, PartialEq, Eq, Structural)]
pub enum Phase {
    /// Nothing done yet.
    Start,
    /// The aggregate header is being written.
    WritingHeader,
    /// The generator is running.
    Generating,
    /// The bindings file is being written.
    WritingBindings,
    /// The module stub is being written.
    WritingStub,
    /// All three files are written.
    Done,
    /// The step has failed; nothing more is done.
    Failed,
}

/// What the step is told: that it may begin, or how the last action went.
pub enum Event {
    /// Start the step.
    Begin,
    /// The file of the last `Write` was written, or the I/O error's text.
    Written(Result<(), String>),
    /// The generator's output, or its error's text.
    Generated(Result<String, String>),
}

/// Why the step failed.
pub enum StepError {
    /// A configured path is not valid UTF-8.
    PathEncoding(PathRole),
    /// An output file could not be written; the text is the I/O error's.
    Io(OutputFile, String),
    /// The generator failed; the text is its own message.
    Generator(String),
    /// An event came that the step was not waiting for.
    OutOfSequence,
}

/// What the step asks to be done next.
pub enum Action {
    /// Create or truncate the file and write exactly this text into it.
    Write(OutputFile, String),
    /// Run the generator with these options.
    Generate(GeneratorOptions),
    /// Stop the build with this error.
    Abort(StepError),
    /// The step is complete.
    Finish,
}

/// How a configured path is named in an error message.
pub open spec fn role_text(role: PathRole) -> Seq<char> {
    match role {
        PathRole::AggregateHeader => "bindgen-input.h"@,
        PathRole::ConfigHeader => "config.h"@,
        PathRole::IncludeDir => "include/"@,
    }
}

/// The message the build stops with for each error.
pub open spec fn error_text(e: StepError) -> Seq<char> {
    match e {
        StepError::PathEncoding(role) => role_text(role) + " UTF-8 error"@,
        StepError::Io(f, msg) => file_name_text(f) + " I/O error: "@ + msg@,
        StepError::Generator(msg) => "bindgen error: "@ + msg@,
        StepError::OutOfSequence => "binding generation driven out of sequence"@,
    }
}

impl StepError {
    /// The message the build stops with: the failing path or file, and the
    /// underlying error's own text.
    pub fn message(&self) -> (r: String)
        ensures
            r@ == error_text(*self),
    {
        match self {
            StepError::PathEncoding(role) => {
                let mut m = match role {
                    PathRole::AggregateHeader => String::from_str("bindgen-input.h"),
                    PathRole::ConfigHeader => String::from_str("config.h"),
                    PathRole::IncludeDir => String::from_str("include/"),
                };
                m.append(" UTF-8 error");
                m
            },
            StepError::Io(f, msg) => {
                let mut m = String::from_str(f.file_name());
                m.append(" I/O error: ");
                m.append(msg.as_str());
                m
            },
            StepError::Generator(msg) => {
                let mut m = String::from_str("bindgen error: ");
                m.append(msg.as_str());
                m
            },
            StepError::OutOfSequence => String::from_str(
                "binding generation driven out of sequence",
            ),
        }
    }
}

/// What the step works from: the enabled header names, in order, and the raw
/// bytes of the three paths the generator is configured with.
pub struct StepInputs {
    /// The enabled header names, without the `mbedtls/` directory.
    pub headers: Vec<String>,
    /// The path of the aggregate header in the output directory.
    pub input_header: Vec<u8>,
    /// The `include/` directory of the mbedTLS sources.
    pub include_dir: Vec<u8>,
    /// The configuration header.
    pub config_h: Vec<u8>,
}

/// The binding generation step: writes the aggregate header, runs the
/// generator, then writes the bindings file and the module stub, and stops
/// at the first failure.
pub struct BindgenStep {
    pub phase: Phase,
    pub inputs: StepInputs,
}

/// An action that writes `f` with text `text`.
pub open spec fn writes(a: Action, f: OutputFile, text: Seq<char>) -> bool {
    a matches Action::Write(g, c) && g == f && c@ == text
}

/// One move of the step: from `phase`, told `event`, it goes to `next` and
/// asks for `a`.
pub open spec fn transition(
    phase: Phase,
    inputs: StepInputs,
    event: Event,
    next: Phase,
    a: Action,
) -> bool {
    match (phase, event) {
        (Phase::Start, Event::Begin) => next == Phase::WritingHeader && writes(
            a,
            OutputFile::AggregateHeader,
            aggregate_text(inputs.headers.deep_view()),
        ),
        (Phase::WritingHeader, Event::Written(Ok(_))) => match first_bad_path(
            inputs.input_header@,
            inputs.include_dir@,
            inputs.config_h@,
        ) {
            Some(role) => next == Phase::Failed && a == Action::Abort(
                StepError::PathEncoding(role),
            ),
            None => next == Phase::Generating && (a matches Action::Generate(o) && options_for(
                o,
                decode_utf8(inputs.input_header@),
                decode_utf8(inputs.include_dir@),
                decode_utf8(inputs.config_h@),
            )),
        },
        (Phase::WritingHeader, Event::Written(Err(msg))) => next == Phase::Failed && a
            == Action::Abort(StepError::Io(OutputFile::AggregateHeader, msg)),
        (Phase::Generating, Event::Generated(Ok(out))) => next == Phase::WritingBindings
            && writes(a, OutputFile::Bindings, bindings_text(out@)),
        (Phase::Generating, Event::Generated(Err(msg))) => next == Phase::Failed && a
            == Action::Abort(StepError::Generator(msg)),
        (Phase::WritingBindings, Event::Written(Ok(_))) => next == Phase::WritingStub && writes(
            a,
            OutputFile::ModuleStub,
            module_stub_text(),
        ),
        (Phase::WritingBindings, Event::Written(Err(msg))) => next == Phase::Failed && a
            == Action::Abort(StepError::Io(OutputFile::Bindings, msg)),
        (Phase::WritingStub, Event::Written(Ok(_))) => next == Phase::Done && a == Action::Finish,
        (Phase::WritingStub, Event::Written(Err(msg))) => next == Phase::Failed && a
            == Action::Abort(StepError::Io(OutputFile::ModuleStub, msg)),
        (Phase::Done, _) => next == Phase::Done && a == Action::Finish,
        _ => next == Phase::Failed && a == Action::Abort(StepError::OutOfSequence),
    }
}

/// Two events that carry the same texts.
pub open spec fn same_event(e1: Event, e2: Event) -> bool {
    match (e1, e2) {
        (Event::Begin, Event::Begin) => true,
        (Event::Written(Ok(_)), Event::Written(Ok(_))) => true,
        (Event::Written(Err(m1)), Event::Written(Err(m2))) => m1@ == m2@,
        (Event::Generated(Ok(o1)), Event::Generated(Ok(o2))) => o1@ == o2@,
        (Event::Generated(Err(m1)), Event::Generated(Err(m2))) => m1@ == m2@,
        _ => false,
    }
}

/// Two sets of inputs with the same header names and the same path bytes.
pub open spec fn same_inputs(i1: StepInputs, i2: StepInputs) -> bool {
    &&& i1.headers.deep_view() == i2.headers.deep_view()
    &&& i1.input_header@ == i2.input_header@
    &&& i1.include_dir@ == i2.include_dir@
    &&& i1.config_h@ == i2.config_h@
}

/// When a configured path is not valid UTF-8, the step never asks for the
/// generator to run; once the aggregate header is written it stops with a
/// path-encoding error.
pub proof fn lemma_bad_path_never_generates(
    phase: Phase,
    inputs: StepInputs,
    event: Event,
    next: Phase,
    a: Action,
)
    requires
        transition(phase, inputs, event, next, a),
        first_bad_path(inputs.input_header@, inputs.include_dir@, inputs.config_h@) is Some,
    ensures
        !(a is Generate),
        (phase == Phase::WritingHeader && (event matches Event::Written(Ok(_)))) ==> (next
            == Phase::Failed && (a matches Action::Abort(StepError::PathEncoding(_)))),
{
}

/// A failure is final: a failing generator run, or any failed write, leaves
/// the step failed, and a failed step writes nothing more and never runs the
/// generator again.
pub proof fn lemma_failure_is_final(
    phase: Phase,
    inputs: StepInputs,
    event: Event,
    next: Phase,
    a: Action,
)
    requires
        transition(phase, inputs, event, next, a),
    ensures
        (phase == Phase::Generating && (event matches Event::Generated(Err(_)))) ==> (next
            == Phase::Failed && !(a is Write)),
        ((event matches Event::Written(Err(_))) && phase != Phase::Done) ==> next
            == Phase::Failed,
        phase == Phase::Failed ==> next == Phase::Failed && !(a is Write) && !(a is Generate),
{
}

/// The step is deterministic: from the same phase, with the same inputs and
/// the same event, it moves to the same phase and writes the same text to
/// the same file, so a repeated run rewrites every file identically.
pub proof fn lemma_same_writes(
    phase: Phase,
    i1: StepInputs,
    i2: StepInputs,
    e1: Event,
    e2: Event,
    n1: Phase,
    n2: Phase,
    a1: Action,
    a2: Action,
)
    requires
        transition(phase, i1, e1, n1, a1),
        transition(phase, i2, e2, n2, a2),
        same_inputs(i1, i2),
        same_event(e1, e2),
    ensures
        n1 == n2,
        a1 is Write <==> a2 is Write,
        forall|f: OutputFile, t: Seq<char>| writes(a1, f, t) <==> writes(a2, f, t),
{
}

impl BindgenStep {
    /// A step that has not begun.
    pub fn new(inputs: StepInputs) -> (s: BindgenStep)
        ensures
            s.phase == Phase::Start,
            s.inputs == inputs,
    {
        BindgenStep { phase: Phase::Start, inputs }
    }

    /// Where the step stands.
    pub fn phase(&self) -> (r: Phase)
        ensures
            r == self.phase,
    {
        self.phase
    }

    /// Takes one event and returns the next action; the inputs stay as they
    /// are.
    pub fn advance(&mut self, event: Event) -> (a: Action)
        ensures
            final(self).inputs == old(self).inputs,
            transition(old(self).phase, old(self).inputs, event, final(self).phase, a),
    {
        let phase = self.phase;
        match (phase, event) {
            (Phase::Start, Event::Begin) => {
                self.phase = Phase::WritingHeader;
                Action::Write(OutputFile::AggregateHeader, aggregate_header(&self.inputs.headers))
            },
            (Phase::WritingHeader, Event::Written(Ok(_))) => {
                match generator_options(
                    &self.inputs.input_header,
                    &self.inputs.include_dir,
                    &self.inputs.config_h,
                ) {
                    Ok(o) => {
                        self.phase = Phase::Generating;
                        Action::Generate(o)
                    },
                    Err(role) => {
                        self.phase = Phase::Failed;
                        Action::Abort(StepError::PathEncoding(role))
                    },
                }
            },
            (Phase::WritingHeader, Event::Written(Err(msg))) => {
                self.phase = Phase::Failed;
                Action::Abort(StepError::Io(OutputFile::AggregateHeader, msg))
            },
            (Phase::Generating, Event::Generated(Ok(out))) => {
                self.phase = Phase::WritingBindings;
                Action::Write(OutputFile::Bindings, bindings_output(out))
            },
            (Phase::Generating, Event::Generated(Err(msg))) => {
                self.phase = Phase::Failed;
                Action::Abort(StepError::Generator(msg))
            },
            (Phase::WritingBindings, Event::Written(Ok(_))) => {
                self.phase = Phase::WritingStub;
                Action::Write(OutputFile::ModuleStub, module_stub())
            },
            (Phase::WritingBindings, Event::Written(Err(msg))) => {
                self.phase = Phase::Failed;
                Action::Abort(StepError::Io(OutputFile::Bindings, msg))
            },
            (Phase::WritingStub, Event::Written(Ok(_))) => {
                self.phase = Phase::Done;
                Action::Finish
            },
            (Phase::WritingStub, Event::Written(Err(msg))) => {
                self.phase = Phase::Failed;
                Action::Abort(StepError::Io(OutputFile::ModuleStub, msg))
            },
            (Phase::Done, _) => Action::Finish,
            _ => {
                self.phase = Phase::Failed;
                Action::Abort(StepError::OutOfSequence)
            },
        }
    }
}

} // verus!
