use mbedtls_bindgen::options::PathRole;
use mbedtls_bindgen::step::{Action, BindgenStep, Event, OutputFile, Phase, StepError, StepInputs};

fn inputs(headers: &[&str], config_h: Vec<u8>) -> StepInputs {
    StepInputs {
        headers: headers.iter().map(|s| s.to_string()).collect(),
        input_header: b"/tmp/build/bindgen-input.h".to_vec(),
        include_dir: b"/src/mbedtls/include".to_vec(),
        config_h,
    }
}

fn expect_write(a: Action, file: OutputFile) -> String {
    match a {
        Action::Write(f, c) => {
            assert_eq!(f, file);
            c
        }
        _ => panic!("expected a write of {}", file.file_name()),
    }
}

fn run_ok(step: &mut BindgenStep, generated: &str) -> Vec<(OutputFile, String)> {
    let mut files = Vec::new();
    let c = expect_write(step.advance(Event::Begin), OutputFile::AggregateHeader);
    files.push((OutputFile::AggregateHeader, c));
    match step.advance(Event::Written(Ok(()))) {
        Action::Generate(_) => {}
        _ => panic!("expected the generator to run"),
    }
    let c = expect_write(step.advance(Event::Generated(Ok(generated.to_string()))), OutputFile::Bindings);
    files.push((OutputFile::Bindings, c));
    let c = expect_write(step.advance(Event::Written(Ok(()))), OutputFile::ModuleStub);
    files.push((OutputFile::ModuleStub, c));
    assert!(matches!(step.advance(Event::Written(Ok(()))), Action::Finish));
    assert_eq!(step.phase(), Phase::Done);
    files
}

#[test]
fn full_run_writes_three_files() {
    let mut step = BindgenStep::new(inputs(&["aes.h", "sha256.h"], b"/src/config.h".to_vec()));
    assert_eq!(step.phase(), Phase::Start);
    let files = run_ok(&mut step, "pub const AES_ENCRYPT: u32 = 1;\n");
    assert_eq!(files[0].1, "#include <mbedtls/aes.h>\n#include <mbedtls/sha256.h>\n");
    assert_eq!(files[1].1, "pub const AES_ENCRYPT: u32 = 1;\nuse ::types::*;\n");
    assert_eq!(files[2].1, "mod bindings;\n");
}

#[test]
fn empty_header_list_runs() {
    let mut step = BindgenStep::new(inputs(&[], b"/src/config.h".to_vec()));
    let files = run_ok(&mut step, "");
    assert_eq!(files[0].1, "");
    assert_eq!(files[1].1, "use ::types::*;\n");
}

#[test]
fn generator_options_reach_the_generator() {
    let mut step = BindgenStep::new(inputs(&["aes.h"], b"/src/config.h".to_vec()));
    step.advance(Event::Begin);
    match step.advance(Event::Written(Ok(()))) {
        Action::Generate(o) => {
            assert_eq!(o.input, "/tmp/build/bindgen-input.h");
            assert_eq!(o.clang_args[1], "-DMBEDTLS_CONFIG_FILE=</src/config.h>");
            assert_eq!(o.clang_args[2], "-I/src/mbedtls/include");
        }
        _ => panic!("expected the generator to run"),
    }
    assert_eq!(step.phase(), Phase::Generating);
}

#[test]
fn rerun_is_identical() {
    let mut s1 = BindgenStep::new(inputs(&["aes.h", "md.h"], b"/c.h".to_vec()));
    let mut s2 = BindgenStep::new(inputs(&["aes.h", "md.h"], b"/c.h".to_vec()));
    assert_eq!(run_ok(&mut s1, "pub type x = u8;\n"), run_ok(&mut s2, "pub type x = u8;\n"));
}

#[test]
fn generator_failure_stops_the_step() {
    let mut step = BindgenStep::new(inputs(&["aes.h"], b"/src/config.h".to_vec()));
    expect_write(step.advance(Event::Begin), OutputFile::AggregateHeader);
    assert!(matches!(step.advance(Event::Written(Ok(()))), Action::Generate(_)));
    match step.advance(Event::Generated(Err("fatal: unknown type".to_string()))) {
        Action::Abort(e) => {
            assert!(matches!(&e, StepError::Generator(m) if m == "fatal: unknown type"));
            assert!(e.message().contains("fatal: unknown type"));
        }
        _ => panic!("expected the step to abort"),
    }
    assert_eq!(step.phase(), Phase::Failed);
    assert!(matches!(step.advance(Event::Written(Ok(()))), Action::Abort(StepError::OutOfSequence)));
    assert!(matches!(step.advance(Event::Generated(Ok(String::new()))), Action::Abort(_)));
    assert_eq!(step.phase(), Phase::Failed);
}

#[test]
fn non_utf8_config_header_stops_before_generation() {
    let mut step = BindgenStep::new(inputs(&["aes.h"], vec![b'/', 0xff]));
    expect_write(step.advance(Event::Begin), OutputFile::AggregateHeader);
    match step.advance(Event::Written(Ok(()))) {
        Action::Abort(e) => {
            assert!(matches!(e, StepError::PathEncoding(PathRole::ConfigHeader)));
            assert_eq!(e.message(), "config.h UTF-8 error");
        }
        _ => panic!("expected the step to abort"),
    }
    assert_eq!(step.phase(), Phase::Failed);
}

#[test]
fn header_write_failure() {
    let mut step = BindgenStep::new(inputs(&["aes.h"], b"/c.h".to_vec()));
    step.advance(Event::Begin);
    match step.advance(Event::Written(Err("permission denied".to_string()))) {
        Action::Abort(e) => {
            assert!(matches!(&e, StepError::Io(OutputFile::AggregateHeader, _)));
            assert_eq!(e.message(), "bindgen-input.h I/O error: permission denied");
        }
        _ => panic!("expected the step to abort"),
    }
}

#[test]
fn bindings_write_failure() {
    let mut step = BindgenStep::new(inputs(&["aes.h"], b"/c.h".to_vec()));
    step.advance(Event::Begin);
    step.advance(Event::Written(Ok(())));
    step.advance(Event::Generated(Ok(String::new())));
    match step.advance(Event::Written(Err("disk full".to_string()))) {
        Action::Abort(e) => assert_eq!(e.message(), "bindings.rs I/O error: disk full"),
        _ => panic!("expected the step to abort"),
    }
    assert_eq!(step.phase(), Phase::Failed);
}

#[test]
fn stub_write_failure() {
    let mut step = BindgenStep::new(inputs(&["aes.h"], b"/c.h".to_vec()));
    step.advance(Event::Begin);
    step.advance(Event::Written(Ok(())));
    step.advance(Event::Generated(Ok(String::new())));
    step.advance(Event::Written(Ok(())));
    match step.advance(Event::Written(Err("disk full".to_string()))) {
        Action::Abort(e) => assert_eq!(e.message(), "mod-bindings.rs I/O error: disk full"),
        _ => panic!("expected the step to abort"),
    }
}

#[test]
fn out_of_sequence_event() {
    let mut step = BindgenStep::new(inputs(&["aes.h"], b"/c.h".to_vec()));
    match step.advance(Event::Generated(Ok(String::new()))) {
        Action::Abort(e) => {
            assert!(matches!(e, StepError::OutOfSequence));
            assert_eq!(e.message(), "binding generation driven out of sequence");
        }
        _ => panic!("expected the step to abort"),
    }
    assert_eq!(step.phase(), Phase::Failed);
}

#[test]
fn done_stays_done() {
    let mut step = BindgenStep::new(inputs(&["aes.h"], b"/c.h".to_vec()));
    run_ok(&mut step, "");
    assert!(matches!(step.advance(Event::Begin), Action::Finish));
    assert_eq!(step.phase(), Phase::Done);
}

#[test]
fn output_file_names() {
    assert_eq!(OutputFile::AggregateHeader.file_name(), "bindgen-input.h");
    assert_eq!(OutputFile::Bindings.file_name(), "bindings.rs");
    assert_eq!(OutputFile::ModuleStub.file_name(), "mod-bindings.rs");
}

#[test]
fn path_error_messages() {
    assert_eq!(StepError::PathEncoding(PathRole::AggregateHeader).message(), "bindgen-input.h UTF-8 error");
    assert_eq!(StepError::PathEncoding(PathRole::IncludeDir).message(), "include/ UTF-8 error");
    assert_eq!(StepError::Generator("x".to_string()).message(), "bindgen error: x");
}
