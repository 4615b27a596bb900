//! The command model of the compiler: which command runs, and with which
//! options.  Argument parsing itself is I/O-side work and stays outside the
//! library; these are the plain values it produces.
use vstd::prelude::*;

verus! {

/// Options of the compile command.
pub struct CompileCommandOpts {
    /// Path of the JavaScript input file.
    pub input: String,
    /// Desired path of the WebAssembly output file.
    pub output: String,
    /// Disables source compression in the provenance section, reducing
    /// compile time at the expense of larger modules.
    pub no_source_compression: bool,
}

/// A command of the compiler.
pub enum Command {
    /// Compiles JavaScript to WebAssembly.
    Compile(CompileCommandOpts),
}

} // verus!
