use vstd::prelude::*;
use vstd::string::StringExecFns;

use crate::opts::Opts;

verus! {

/// Failure of stub generation or of the surrounding file handling; each
/// variant names the stage that failed.
#[derive(Debug, Clone, Copy, PartialEq, Eq, Structural)]
pub enum Error {
    /// The custom template file's bytes are not valid UTF-8.
    Utf8Error,
    /// An I/O fault while writing the stub file.
    WriteError,
    /// An I/O fault while reading a custom template file.
    ReadError,
    /// The template's placeholder syntax is malformed.
    TmplError,
    /// The template engine failed during substitution.
    RenderError,
    /// An I/O fault while setting the stub file's executable bit.
    SetExecError,
}

/// The diagnostic line that belongs to each error variant.
pub open spec fn spec_message(e: Error) -> Seq<char> {
    match e {
        Error::Utf8Error => "solve script template is not valid UTF-8"@,
        Error::WriteError => "error writing solve script template"@,
        Error::ReadError => "error reading solve script template"@,
        Error::TmplError => "error initializing template"@,
        Error::RenderError => "error rendering solve script template"@,
        Error::SetExecError => "error setting solve script template executable"@,
    }
}

impl Error {
    /// A human-readable description of the failed stage.
    pub fn message(&self) -> (r: String)
        ensures
            r@ == spec_message(*self),
    {
        match self {
            Error::Utf8Error => String::from_str("solve script template is not valid UTF-8"),
            Error::WriteError => String::from_str("error writing solve script template"),
            Error::ReadError => String::from_str("error reading solve script template"),
            Error::TmplError => String::from_str("error initializing template"),
            Error::RenderError => String::from_str("error rendering solve script template"),
            Error::SetExecError => String::from_str(
                "error setting solve script template executable",
            ),
        }
    }
}

/// The substitution context handed to the template engine: the displayable
/// path of the target binary and of the libc, each empty when the
/// corresponding path is absent.
pub struct Bindings {
    /// Value bound to the template variable `exe`.
    pub exe: String,
    /// Value bound to the template variable `libc`.
    pub libc: String,
}

/// The fixed name of the generated stub file.
pub fn stub_file_name() -> (r: String)
    ensures
        r@ == "solve.py"@,
{
    String::from_str("solve.py")
}

/// One pwntools binding line: `<name> = ELF("<path>")`.
pub open spec fn spec_bind_line(name: Seq<char>, path: Seq<char>) -> Seq<char> {
    name + " = ELF(\""@ + path + "\")"@
}

/// The binding lines contributed by one optional path: one line when the
/// path is present, none when it is absent.
pub open spec fn spec_opt_line(name: Seq<char>, path: Option<String>) -> Seq<Seq<char>> {
    match path {
        Some(p) => seq![spec_bind_line(name, p@)],
        None => Seq::<Seq<char>>::empty(),
    }
}

/// The given lines joined with single newlines, with no trailing newline.
pub open spec fn spec_joined(lines: Seq<Seq<char>>) -> Seq<char>
    decreases lines.len(),
{
    if lines.len() == 0 {
        Seq::<char>::empty()
    } else if lines.len() == 1 {
        lines[0]
    } else {
        spec_joined(lines.drop_last()) + "\n"@ + lines.last()
    }
}

/// The pwntools binding block for a configuration: one `ELF(..)` line per
/// present path, in the order binary, libc, linker, joined with newlines.
pub open spec fn spec_make_bindings(opts: &Opts) -> Seq<char> {
    spec_joined(
        spec_opt_line(opts.template_bin_name@, opts.bin) + spec_opt_line(
            opts.template_libc_name@,
            opts.libc,
        ) + spec_opt_line(opts.template_ld_name@, opts.ld),
    )
}

fn bind_line(name: &str, path: &str) -> (r: String)
    ensures
        r@ == spec_bind_line(name@, path@),
{
    let mut r = String::from_str(name);
    r.append(" = ELF(\"");
    r.append(path);
    r.append("\")");
    r
}

fn join_lines(lines: &Vec<String>) -> (r: String)
    ensures
        r@ == spec_joined(lines@.map_values(|s: String| s@)),
{
    let ghost views = lines@.map_values(|s: String| s@);
    let mut r = String::new();
    let mut i: usize = 0;
    while i < lines.len()
        invariant
            i <= lines@.len(),
            views == lines@.map_values(|s: String| s@),
            r@ == spec_joined(views.take(i as int)),
        decreases lines@.len() - i,
    {
        if i > 0 {
            r.append("\n");
        }
        r.append(lines[i].as_str());
        proof {
            assert(views[i as int] == lines@[i as int]@);
            let vs = views.take(i as int + 1);
            assert(vs.drop_last() =~~= views.take(i as int));
            assert(vs.last() == views[i as int]);
            assert(r@ =~= spec_joined(vs));
        }
        i = i + 1;
    }
    proof {
        assert(views.take(lines@.len() as int) =~~= views);
    }
    r
}

/// Make the pwntools script lines that bind the (binary, libc, linker)
/// paths to `ELF` variables, one line per configured path.
pub fn _make_bindings(opts: &Opts) -> (r: String)
    ensures
        r@ == spec_make_bindings(opts),
{
    let mut lines: Vec<String> = Vec::new();
    if let Some(path) = &opts.bin {
        lines.push(bind_line(opts.template_bin_name.as_str(), path.as_str()));
    }
    if let Some(path) = &opts.libc {
        lines.push(bind_line(opts.template_libc_name.as_str(), path.as_str()));
    }
    if let Some(path) = &opts.ld {
        lines.push(bind_line(opts.template_ld_name.as_str(), path.as_str()));
    }
    proof {
        assert(lines@.map_values(|s: String| s@) =~~= spec_opt_line(
            opts.template_bin_name@,
            opts.bin,
        ) + spec_opt_line(opts.template_libc_name@, opts.libc) + spec_opt_line(
            opts.template_ld_name@,
            opts.ld,
        ));
    }
    join_lines(&lines)
}

/// The positional-argument list for the pwntools `process()` call: the
/// linker's path before the binary's when a linker is configured, the
/// binary's path alone otherwise.
pub open spec fn spec_proc_args_list(opts: &Opts) -> Seq<char> {
    if opts.ld is Some {
        opts.template_ld_name@ + ".path, "@ + opts.template_bin_name@ + ".path"@
    } else {
        opts.template_bin_name@ + ".path"@
    }
}

/// The `env` keyword argument for the pwntools `process()` call: an
/// `LD_PRELOAD` entry for the libc when one is configured, nothing
/// otherwise.
pub open spec fn spec_proc_env(opts: &Opts) -> Seq<char> {
    if opts.libc is Some {
        ", env={\"LD_PRELOAD\": "@ + opts.template_libc_name@ + ".path}"@
    } else {
        Seq::<char>::empty()
    }
}

/// The full argument text for the pwntools `process()` call.
pub open spec fn spec_make_proc_args(opts: &Opts) -> Seq<char> {
    "["@ + spec_proc_args_list(opts) + "]"@ + spec_proc_env(opts)
}

/// Make the argument text for the pwntools `process()` function: the
/// bracketed path list, followed by an `LD_PRELOAD` environment entry when
/// a libc is configured.
pub fn _make_proc_args(opts: &Opts) -> (r: String)
    ensures
        r@ == spec_make_proc_args(opts),
{
    let mut r = String::from_str("[");
    if opts.ld.is_some() {
        r.append(opts.template_ld_name.as_str());
        r.append(".path, ");
        r.append(opts.template_bin_name.as_str());
        r.append(".path");
    } else {
        r.append(opts.template_bin_name.as_str());
        r.append(".path");
    }
    r.append("]");
    if opts.libc.is_some() {
        r.append(", env={\"LD_PRELOAD\": ");
        r.append(opts.template_libc_name.as_str());
        r.append(".path}");
    }
    proof {
        assert(r@ =~= spec_make_proc_args(opts));
    }
    r
}

/// The built-in solve-script template, compiled into the program and used
/// whenever no custom template path is configured.
pub open spec fn builtin_template() -> Seq<char> {
    "#!/usr/bin/env python3\n\nfrom pwn import *\n\nexe = \"{{exe}}\"\nlibc = \"{{libc}}\"\n\nr = process([exe])\n\nr.interactive()\n"@
}

/// The built-in solve-script template as an owned string.
pub fn builtin_template_text() -> (r: String)
    ensures
        r@ == builtin_template(),
{
    String::from_str(
        "#!/usr/bin/env python3\n\nfrom pwn import *\n\nexe = \"{{exe}}\"\nlibc = \"{{libc}}\"\n\nr = process([exe])\n\nr.interactive()\n",
    )
}

/// Whether the template engine accepts the template text: registering a
/// template fails exactly on a placeholder-syntax error, which depends on
/// the template text alone.
pub uninterp spec fn hb_template_ok(templ: Seq<char>) -> bool;

/// What rendering a registered template with `exe` and `libc` bound
/// produces: the substituted text, or `None` when the engine fails during
/// substitution. The outcome depends on the template text and the two
/// bound values alone.
pub uninterp spec fn hb_render_of(templ: Seq<char>, exe: Seq<char>, libc: Seq<char>) -> Option<
    Seq<char>,
>;

/// Relies on `String::from_utf8`: per its documentation it returns `Ok`
/// exactly when the bytes are valid UTF-8, and then decodes them.
#[verifier::external_body]
fn utf8_string(bytes: Vec<u8>) -> (r: Result<String, Error>)
    ensures
        match r {
            Ok(s) => vstd::utf8::valid_utf8(bytes@) && s@ == vstd::utf8::decode_utf8(bytes@),
            Err(e) => !vstd::utf8::valid_utf8(bytes@) && e == Error::Utf8Error,
        },
{
    match String::from_utf8(bytes) {
        Ok(s) => Ok(s),
        Err(_) => Err(Error::Utf8Error),
    }
}

/// Relies on `handlebars::Handlebars`: `register_template_string` fails
/// exactly on a template syntax error, and `render` substitutes the
/// registered template with the `exe` and `libc` bindings as data; on a
/// fresh registry both outcomes depend on the template text and the two
/// bound values alone. The registry stays in its default non-strict mode,
/// so a variable the data does not bind renders as empty text rather than
/// failing.
#[verifier::external_body]
fn hb_render(templ: &String, bindings: &Bindings) -> (r: Result<String, Error>)
    ensures
        match r {
            Ok(s) => hb_template_ok(templ@) && hb_render_of(templ@, bindings.exe@, bindings.libc@)
                == Some(s@),
            Err(e) => (e == Error::TmplError && !hb_template_ok(templ@)) || (e
                == Error::RenderError && hb_template_ok(templ@) && hb_render_of(
                templ@,
                bindings.exe@,
                bindings.libc@,
            ) is None),
        },
{
    let mut registry = handlebars::Handlebars::new();
    if registry.register_template_string("solve", templ).is_err() {
        return Err(Error::TmplError);
    }
    let mut data = std::collections::BTreeMap::new();
    data.insert("exe", bindings.exe.as_str());
    data.insert("libc", bindings.libc.as_str());
    match registry.render("solve", &data) {
        Ok(s) => Ok(s),
        Err(_) => Err(Error::RenderError),
    }
}

/// The template text that a custom template source decodes to, when its
/// bytes are valid UTF-8.
pub open spec fn spec_opt_bytes(o: Option<Vec<u8>>) -> Option<Seq<u8>> {
    match o {
        Some(v) => Some(v@),
        None => None,
    }
}

/// The value bound to `exe`: the binary path's text, or empty when absent.
pub open spec fn spec_exe_binding(opts: &Opts) -> Seq<char> {
    match opts.bin {
        Some(b) => b@,
        None => Seq::<char>::empty(),
    }
}

/// The value bound to `libc`: the libc path's text, or empty when absent.
pub open spec fn spec_libc_binding(opts: &Opts) -> Seq<char> {
    match opts.libc {
        Some(l) => l@,
        None => Seq::<char>::empty(),
    }
}

/// The outcome of rendering a resolved template: the substituted text, or
/// the error of the stage that failed.
pub open spec fn spec_render_outcome(templ: Seq<char>, exe: Seq<char>, libc: Seq<char>) -> Result<
    Seq<char>,
    Error,
> {
    if !hb_template_ok(templ) {
        Err(Error::TmplError)
    } else {
        match hb_render_of(templ, exe, libc) {
            Some(s) => Ok(s),
            None => Err(Error::RenderError),
        }
    }
}

/// The outcome of the whole stub computation: decode the custom template
/// when one is given (rejecting bytes that are not UTF-8), fall back to the
/// built-in template otherwise, then render with the two bindings.
pub open spec fn spec_make_stub(custom: Option<Seq<u8>>, exe: Seq<char>, libc: Seq<char>) -> Result<
    Seq<char>,
    Error,
> {
    match custom {
        Some(bytes) => if vstd::utf8::valid_utf8(bytes) {
            spec_render_outcome(vstd::utf8::decode_utf8(bytes), exe, libc)
        } else {
            Err(Error::Utf8Error)
        },
        None => spec_render_outcome(builtin_template(), exe, libc),
    }
}

/// Whether an executable result and a mathematical outcome agree, on both
/// the rendered text and the error.
pub open spec fn result_matches(r: Result<String, Error>, s: Result<Seq<char>, Error>) -> bool {
    match (r, s) {
        (Ok(a), Ok(b)) => a@ == b,
        (Err(a), Err(b)) => a == b,
        _ => false,
    }
}

/// Fill in the solve-script template with the (binary, libc) paths.
///
/// `custom_template` holds the raw bytes of the custom template file when
/// the configuration names one, and `None` otherwise; the caller performs
/// the file read. The result is the rendered script, or the error of the
/// first stage that failed, exactly as `spec_make_stub` lays it out.
pub fn make_stub(opts: &Opts, custom_template: Option<Vec<u8>>) -> (r: Result<String, Error>)
    ensures
        result_matches(
            r,
            spec_make_stub(
                spec_opt_bytes(custom_template),
                spec_exe_binding(opts),
                spec_libc_binding(opts),
            ),
        ),
{
    let templ: String = match custom_template {
        Some(data) => match utf8_string(data) {
            Ok(s) => s,
            Err(e) => {
                return Err(e);
            },
        },
        None => builtin_template_text(),
    };
    let exe: String = match &opts.bin {
        Some(b) => b.clone(),
        None => String::new(),
    };
    let libc: String = match &opts.libc {
        Some(l) => l.clone(),
        None => String::new(),
    };
    let bindings = Bindings { exe, libc };
    hb_render(&templ, &bindings)
}

/// A custom template whose bytes are not valid UTF-8 is always rejected
/// with the decode error, whatever the configured paths: no stub text is
/// ever produced from such a template, so the caller writes nothing.
pub proof fn lemma_invalid_utf8_rejected(custom: Seq<u8>, exe: Seq<char>, libc: Seq<char>)
    requires
        !vstd::utf8::valid_utf8(custom),
    ensures
        spec_make_stub(Some(custom), exe, libc) == Err::<Seq<char>, Error>(Error::Utf8Error),
{
}

/// What the caller is to do with a freshly rendered stub.
#[derive(Debug, Clone, Copy, PartialEq, Eq, Structural)]
pub enum StubAction {
    /// Write the rendered stub to the output file, report it on standard
    /// output, and mark the file executable.
    WriteStub,
    /// Leave the existing output file untouched and report nothing.
    Skip,
}

/// The write-once decision: a stub is written, reported and marked
/// executable exactly when no output file exists yet, so a second run in
/// the same directory never touches the file again.
pub fn stub_action(already_exists: bool) -> (a: StubAction)
    ensures
        a is WriteStub <==> !already_exists,
{
    if already_exists {
        StubAction::Skip
    } else {
        StubAction::WriteStub
    }
}

} // verus!
