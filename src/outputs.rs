use vstd::prelude::*;

verus! {

/// The line appended to the generator's output: it brings in the hand-written
/// platform types (`FILE`, `time_t` and the like).
pub open spec fn types_import_line() -> Seq<char> {
    "use ::types::*;\n"@
}

/// The bindings file: the generator's output as it is, then the import line.
pub open spec fn bindings_text(generated: Seq<char>) -> Seq<char> {
    generated + types_import_line()
}

/// The module stub: one line declaring the bindings as a sub-module.
pub open spec fn module_stub_text() -> Seq<char> {
    "mod bindings;\n"@
}

/// Builds the bindings file from the generator's output.
pub fn bindings_output(generated: String) -> (r: String)
    ensures
        r@ == bindings_text(generated@),
{
    let mut text = generated;
    text.append("use ::types::*;\n");
    text
}

/// Builds the module stub.
pub fn module_stub() -> (r: String)
    ensures
        r@ == module_stub_text(),
{
    String::from_str("mod bindings;\n")
}

/// The import line stands once at the end of the bindings file, after all of
/// the generator's output, which comes first and unchanged; with an empty
/// output the file is the import line alone.
pub proof fn lemma_import_appended_once(generated: Seq<char>)
    ensures
        bindings_text(generated).len() == generated.len() + types_import_line().len(),
        bindings_text(generated).take(generated.len() as int) == generated,
        bindings_text(generated).skip(generated.len() as int) == types_import_line(),
        generated.len() == 0 ==> bindings_text(generated) == types_import_line(),
{
    let t = bindings_text(generated);
    assert(t.take(generated.len() as int) =~= generated);
    assert(t.skip(generated.len() as int) =~= types_import_line());
    if generated.len() == 0 {
        assert(t =~= types_import_line());
    }
}

/// How serious a message of the generator is.
#[derive(Clone, Copy, Debug, PartialEq, Eq, Structural)]
pub enum Severity {
    Error,
    Warning,
}

/// The tag that starts a forwarded message of the given severity.
pub open spec fn severity_tag(level: Severity) -> Seq<char> {
    match level {
        Severity::Error => "Bindgen ERROR: "@,
        Severity::Warning => "Bindgen WARNING: "@,
    }
}

/// Formats a message of the generator for the error stream: its tag, then the
/// message as it is.
pub fn diagnostic_line(level: Severity, msg: &str) -> (r: String)
    ensures
        r@ == severity_tag(level) + msg@,
{
    let mut line = match level {
        Severity::Error => String::from_str("Bindgen ERROR: "),
        Severity::Warning => String::from_str("Bindgen WARNING: "),
    };
    line.append(msg);
    line
}

} // verus!
