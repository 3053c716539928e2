use solvestub::opts::Opts;
use solvestub::solvepy::{make_stub, stub_action, stub_file_name};
use solvestub::solvepy::{Error, StubAction};
use solvestub::solvepy::{_make_bindings, _make_proc_args};

fn opts(bin: Option<&str>, libc: Option<&str>, ld: Option<&str>) -> Opts {
    Opts {
        bin: bin.map(|s| s.to_string()),
        libc: libc.map(|s| s.to_string()),
        ld: ld.map(|s| s.to_string()),
        template_path: None,
        template_bin_name: "exe".to_string(),
        template_libc_name: "libc".to_string(),
        template_ld_name: "ld".to_string(),
    }
}

#[test]
fn binding_correctness() {
    let o = opts(Some("/tmp/chal"), None, None);
    let tmpl = b"exe=[{{exe}}] libc=[{{libc}}]".to_vec();
    let r = make_stub(&o, Some(tmpl));
    assert_eq!(r, Ok("exe=[/tmp/chal] libc=[]".to_string()));
}

#[test]
fn custom_template_round_trip() {
    let o = opts(Some("/a"), Some("/b"), None);
    let r = make_stub(&o, Some(b"{{exe}}-{{libc}}".to_vec()));
    assert_eq!(r, Ok("/a-/b".to_string()));
}

#[test]
fn invalid_utf8_rejected() {
    let o = opts(Some("/a"), None, None);
    let r = make_stub(&o, Some(vec![0xff, 0xfe, 0x80]));
    assert_eq!(r, Err(Error::Utf8Error));
}

#[test]
fn multibyte_template_decoded() {
    let o = opts(Some("/a"), None, None);
    let r = make_stub(&o, Some("é→{{exe}}".as_bytes().to_vec()));
    assert_eq!(r, Ok("é→/a".to_string()));
}

#[test]
fn empty_template_renders_empty() {
    let o = opts(None, None, None);
    let r = make_stub(&o, Some(Vec::new()));
    assert_eq!(r, Ok(String::new()));
}

#[test]
fn unknown_variable_renders_empty() {
    let o = opts(Some("/a"), None, None);
    let r = make_stub(&o, Some(b"{{exe}}|{{unknown}}|x".to_vec()));
    assert_eq!(r, Ok("/a||x".to_string()));
}

#[test]
fn malformed_template_reports_init_error() {
    let o = opts(Some("/a"), None, None);
    let r = make_stub(&o, Some(b"{{#if exe}}unclosed".to_vec()));
    assert_eq!(r, Err(Error::TmplError));
}

#[test]
fn missing_partial_reports_render_error() {
    let o = opts(Some("/a"), None, None);
    let r = make_stub(&o, Some(b"{{> nonexistent_partial}}".to_vec()));
    assert_eq!(r, Err(Error::RenderError));
}

#[test]
fn builtin_template_substitutes_exe() {
    let o = opts(Some("/tmp/chal"), None, None);
    let r = make_stub(&o, None).unwrap();
    assert!(r.contains("exe = \"/tmp/chal\""));
    assert!(r.contains("libc = \"\""));
    assert!(r.contains("from pwn import *"));
}

#[test]
fn make_bindings_all_three() {
    let o = opts(Some("/bin/x"), Some("/lib/c.so"), Some("/lib/ld.so"));
    assert_eq!(
        _make_bindings(&o),
        "exe = ELF(\"/bin/x\")\nlibc = ELF(\"/lib/c.so\")\nld = ELF(\"/lib/ld.so\")"
    );
}

#[test]
fn make_bindings_only_bin() {
    let o = opts(Some("/bin/x"), None, None);
    assert_eq!(_make_bindings(&o), "exe = ELF(\"/bin/x\")");
}

#[test]
fn make_bindings_libc_and_ld() {
    let o = opts(None, Some("/lib/c.so"), Some("/lib/ld.so"));
    assert_eq!(
        _make_bindings(&o),
        "libc = ELF(\"/lib/c.so\")\nld = ELF(\"/lib/ld.so\")"
    );
}

#[test]
fn make_bindings_none() {
    let o = opts(None, None, None);
    assert_eq!(_make_bindings(&o), "");
}

#[test]
fn proc_args_bin_only() {
    let o = opts(Some("/bin/x"), None, None);
    assert_eq!(_make_proc_args(&o), "[exe.path]");
}

#[test]
fn proc_args_with_ld() {
    let o = opts(Some("/bin/x"), None, Some("/lib/ld.so"));
    assert_eq!(_make_proc_args(&o), "[ld.path, exe.path]");
}

#[test]
fn proc_args_with_libc() {
    let o = opts(Some("/bin/x"), Some("/lib/c.so"), None);
    assert_eq!(
        _make_proc_args(&o),
        "[exe.path], env={\"LD_PRELOAD\": libc.path}"
    );
}

#[test]
fn proc_args_with_ld_and_libc() {
    let o = opts(Some("/bin/x"), Some("/lib/c.so"), Some("/lib/ld.so"));
    assert_eq!(
        _make_proc_args(&o),
        "[ld.path, exe.path], env={\"LD_PRELOAD\": libc.path}"
    );
}

#[test]
fn stub_file_name_is_fixed() {
    assert_eq!(stub_file_name(), "solve.py");
}

#[test]
fn stub_action_writes_when_absent() {
    assert_eq!(stub_action(false), StubAction::WriteStub);
}

#[test]
fn stub_action_skips_when_present() {
    assert_eq!(stub_action(true), StubAction::Skip);
}

#[test]
fn error_messages() {
    assert_eq!(
        Error::Utf8Error.message(),
        "solve script template is not valid UTF-8"
    );
    assert_eq!(
        Error::ReadError.message(),
        "error reading solve script template"
    );
    assert_eq!(
        Error::WriteError.message(),
        "error writing solve script template"
    );
    assert_eq!(Error::TmplError.message(), "error initializing template");
    assert_eq!(
        Error::RenderError.message(),
        "error rendering solve script template"
    );
    assert_eq!(
        Error::SetExecError.message(),
        "error setting solve script template executable"
    );
}
