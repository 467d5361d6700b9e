//! The logging section of the service's configuration.
use vstd::prelude::*;

verus! {

/// The log level that applies where `RUST_LOG` does not set one.
#[derive(Debug)]
pub struct LoggerConfig {
    level: String,
}

impl View for LoggerConfig {
    type V = Seq<char>;

    closed spec fn view(&self) -> Seq<char> {
        self.level@
    }
}

impl Clone for LoggerConfig {
    fn clone(&self) -> (r: Self)
        ensures
            r@ == self@,
    {
        LoggerConfig { level: self.level.clone() }
    }
}

impl LoggerConfig {
    pub fn new(level: String) -> (c: Self)
        ensures
            c@ == level@,
    {
        LoggerConfig { level }
    }

    pub fn level(&self) -> (r: &String)
        ensures
            r@ == self@,
    {
        &self.level
    }
}

} // verus!
