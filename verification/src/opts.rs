use vstd::prelude::*;

verus! {

/// Configuration for stub generation, supplied by the surrounding program.
///
/// Filesystem paths are held in their displayable string form; a path that
/// was not given is `None`. The three `template_*_name` fields are the
/// template-variable names used for the binary, the libc and the dynamic
/// linker when building pwntools binding lines.
pub struct Opts {
    /// Path of the target binary, if any.
    pub bin: Option<String>,
    /// Path of the target libc, if any.
    pub libc: Option<String>,
    /// Path of the target dynamic linker, if any.
    pub ld: Option<String>,
    /// Path of a custom template file overriding the built-in template.
    pub template_path: Option<String>,
    /// Template-variable name for the binary.
    pub template_bin_name: String,
    /// Template-variable name for the libc.
    pub template_libc_name: String,
    /// Template-variable name for the dynamic linker.
    pub template_ld_name: String,
}

} // verus!
