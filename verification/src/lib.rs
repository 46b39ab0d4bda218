//! The decisions of a WebAssembly runner, from the bytes of a file to the
//! exit status of the process.
//!
//! A run goes through six stages in a fixed order: the file is read, its
//! bytes are brought into the binary encoding, the module is compiled, the
//! host ABI that it expects is resolved, the module is instantiated, and its
//! entry point is called. The work of each stage is done by a collaborator
//! outside this library. What this library holds is everything that is
//! decided in between: [`pipeline::Pipeline`] takes each collaborator's
//! answer and says what to do next, and [`report`] turns the end of a run
//! into the lines and the status that the process leaves behind.
//!
//! The properties that hold of every run, whatever the collaborators
//! answer, are proved in [`laws`].

pub mod abi;
pub mod error;
pub mod format;
pub mod laws;
pub mod pipeline;
pub mod report;
