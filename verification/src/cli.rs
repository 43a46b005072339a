//! The program's command surface, as plain data.
//!
//! The surrounding binary derives its argument parser from a mirror of
//! these types and converts into them; the library keeps them bare.

use vstd::prelude::*;

verus! {

/// The parsed invocation: which operation to run.
#[derive(Debug)]
pub struct Tweet2Md {
    pub command: Command,
}

/// One operation: log in, or save the thread at a URL.
#[derive(Debug)]
pub enum Command {
    Login,
    Save { url: String },
}

} // verus!
