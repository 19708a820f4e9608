use vstd::prelude::*;
use vstd::utf8::{decode_utf8, valid_utf8};

use crate::naming::symbol_prefix;

verus! {

/// Relies on `String::from_utf8`: it succeeds exactly on valid UTF-8, and the
/// string it returns holds the characters those bytes encode.
#[verifier::external_body]
fn decode_text(bytes: &Vec<u8>) -> (r: Option<String>)
    ensures
        r is Some <==> valid_utf8(bytes@),
        r matches Some(s) ==> s@ == decode_utf8(bytes@),
{
    String::from_utf8(bytes.clone()).ok()
}

/// Which configured path a path-encoding failure concerns.
#[derive(Clone, Copy, Debug, PartialEq, Eq, Structural)]
pub enum PathRole {
    /// The aggregate header handed to the generator as its input.
    AggregateHeader,
    /// The configuration header injected as `MBEDTLS_CONFIG_FILE`.
    ConfigHeader,
    /// The `include/` directory of the mbedTLS sources.
    IncludeDir,
}

/// The integer type pinned for one family of macro-defined constants.
#[derive(Clone, Copy, Debug, PartialEq, Eq, Structural)]
pub enum IntClass {
    /// A C `int`.
    SInt,
    /// A C `long long`.
    SLongLong,
}

/// The integer types of the eight macro families, in the generator's order.
pub open spec fn macro_int_classes() -> Seq<IntClass> {
    seq![
        IntClass::SInt,
        IntClass::SInt,
        IntClass::SInt,
        IntClass::SLongLong,
        IntClass::SInt,
        IntClass::SInt,
        IntClass::SInt,
        IntClass::SLongLong,
    ]
}

/// What the binding generator is configured with.
pub struct GeneratorOptions {
    /// The header the generator reads.
    pub input: String,
    /// Arguments handed to the C front end, in order.
    pub clang_args: Vec<String>,
    /// Paths whose declarations alone are emitted.
    pub allowlist: Vec<String>,
    /// Emit code for `core`, with no dependency on `std`.
    pub use_core: bool,
    /// Derive `Debug` on the generated types.
    pub derive_debug: bool,
    /// Modules searched, in order, for the C scalar type aliases.
    pub ctypes_prefix: Vec<String>,
    /// The prefix removed from every emitted name.
    pub remove_prefix: String,
    /// Map C enumerations to Rust enums (otherwise to integer constants).
    pub rust_enums: bool,
    /// Turn object-like macros into constants.
    pub convert_macros: bool,
    /// The integer type of each macro family, by position.
    pub macro_int_types: Vec<IntClass>,
}

/// The front-end argument that makes the 128-bit `mbedtls_t_udbl` a known
/// name, which the generator cannot represent otherwise.
pub open spec fn udbl_arg() -> Seq<char> {
    "-Dmbedtls_t_udbl=mbedtls_t_udbl;"@
}

/// The front-end argument that selects the configuration header.
pub open spec fn config_file_arg(config_h: Seq<char>) -> Seq<char> {
    "-DMBEDTLS_CONFIG_FILE=<"@ + config_h + ">"@
}

/// The front-end argument that puts the include directory on the search path.
pub open spec fn include_arg(include_dir: Seq<char>) -> Seq<char> {
    "-I"@ + include_dir
}

/// The options for the given input header, include directory and
/// configuration header, each as text.
pub open spec fn options_for(
    o: GeneratorOptions,
    input: Seq<char>,
    include_dir: Seq<char>,
    config_h: Seq<char>,
) -> bool {
    &&& o.input@ == input
    &&& o.clang_args.deep_view() == seq![
        udbl_arg(),
        config_file_arg(config_h),
        include_arg(include_dir),
    ]
    &&& o.allowlist.deep_view() == seq![include_dir, config_h]
    &&& o.use_core
    &&& !o.derive_debug
    &&& o.ctypes_prefix.deep_view() == seq!["types"@, "raw_types"@]
    &&& o.remove_prefix@ == symbol_prefix()
    &&& !o.rust_enums
    &&& o.convert_macros
    &&& o.macro_int_types@ == macro_int_classes()
}

/// The first of the three paths, in the order input header, configuration
/// header, include directory, that is not valid UTF-8.
pub open spec fn first_bad_path(input: Seq<u8>, include_dir: Seq<u8>, config_h: Seq<u8>) -> Option<
    PathRole,
> {
    if !valid_utf8(input) {
        Some(PathRole::AggregateHeader)
    } else if !valid_utf8(config_h) {
        Some(PathRole::ConfigHeader)
    } else if !valid_utf8(include_dir) {
        Some(PathRole::IncludeDir)
    } else {
        None
    }
}

fn text_vec2(a: String, b: String) -> (r: Vec<String>)
    ensures
        r.deep_view() == seq![a@, b@],
{
    let mut v: Vec<String> = Vec::new();
    v.push(a);
    v.push(b);
    assert(v.deep_view() =~= seq![a@, b@]);
    v
}

/// Configures the generator from the raw bytes of the input header's path,
/// the include directory and the configuration header. Fails with the role
/// of the first path that is not valid UTF-8.
pub fn generator_options(input: &Vec<u8>, include_dir: &Vec<u8>, config_h: &Vec<u8>) -> (r: Result<
    GeneratorOptions,
    PathRole,
>)
    ensures
        first_bad_path(input@, include_dir@, config_h@) matches Some(role) ==> r == Err::<
            GeneratorOptions,
            PathRole,
        >(role),
        first_bad_path(input@, include_dir@, config_h@) is None ==> (r matches Ok(o)
            && options_for(
            o,
            decode_utf8(input@),
            decode_utf8(include_dir@),
            decode_utf8(config_h@),
        )),
{
    let input_text = match decode_text(input) {
        Some(s) => s,
        None => return Err(PathRole::AggregateHeader),
    };
    let config_text = match decode_text(config_h) {
        Some(s) => s,
        None => return Err(PathRole::ConfigHeader),
    };
    let include_text = match decode_text(include_dir) {
        Some(s) => s,
        None => return Err(PathRole::IncludeDir),
    };
    let mut config_arg = String::from_str("-DMBEDTLS_CONFIG_FILE=<");
    config_arg.append(config_text.as_str());
    config_arg.append(">");
    let mut inc_arg = String::from_str("-I");
    inc_arg.append(include_text.as_str());
    let mut clang_args: Vec<String> = Vec::new();
    clang_args.push(String::from_str("-Dmbedtls_t_udbl=mbedtls_t_udbl;"));
    clang_args.push(config_arg);
    clang_args.push(inc_arg);
    let allowlist = text_vec2(include_text, config_text);
    let ctypes_prefix = text_vec2(String::from_str("types"), String::from_str("raw_types"));
    let macro_int_types = vec![
        IntClass::SInt,
        IntClass::SInt,
        IntClass::SInt,
        IntClass::SLongLong,
        IntClass::SInt,
        IntClass::SInt,
        IntClass::SInt,
        IntClass::SLongLong,
    ];
    let o = GeneratorOptions {
        input: input_text,
        clang_args,
        allowlist,
        use_core: true,
        derive_debug: false,
        ctypes_prefix,
        remove_prefix: String::from_str("mbedtls_"),
        rust_enums: false,
        convert_macros: true,
        macro_int_types,
    };
    assert(o.clang_args.deep_view() =~= seq![
        udbl_arg(),
        config_file_arg(decode_utf8(config_h@)),
        include_arg(decode_utf8(include_dir@)),
    ]);
    assert(o.macro_int_types@ =~= macro_int_classes());
    Ok(o)
}

} // verus!
