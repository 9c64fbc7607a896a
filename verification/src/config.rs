//! What is set when the console is started.
use vstd::prelude::*;

verus! {

/// The settings of a console.
#[derive(Debug)]
pub struct Args {
    /// Address of the web console.
    pub listen: String,
    /// Address that clients connect to.
    pub console_listen: String,
    /// Path of the database.
    pub db: String,
    /// Whether new users are turned away.
    pub disable_register: bool,
    /// Where the log goes.
    pub log_path: String,
}

} // verus!
