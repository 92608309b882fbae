//! The settings that the program is started with.

use vstd::prelude::*;

verus! {

/// The settings of one run. The address of the store that events are kept in
/// is required: a program that finds it missing stops before it connects.
#[derive(Debug, PartialEq, Eq)]
pub struct Config {
    database_url: Option<String>,
}

impl View for Config {
    type V = Option<Seq<char>>;

    /// The address of the store, where one was given.
    closed spec fn view(&self) -> Option<Seq<char>> {
        match self.database_url {
            Some(url) => Some(url@),
            None => None,
        }
    }
}

impl Config {
    /// The settings with the given address of the store, or with none.
    pub fn new(database_url: Option<String>) -> (config: Config)
        ensures
            config@ == match database_url {
                Some(url) => Some(url@),
                None => None,
            },
    {
        Config { database_url }
    }

    /// Whether the address of the store was given.
    pub fn has_database_url(&self) -> (given: bool)
        ensures
            given == self@.is_some(),
    {
        self.database_url.is_some()
    }

    /// The address of the store. It is required: the settings must hold one.
    pub fn database_url(&self) -> (url: &str)
        requires
            self@.is_some(),
        ensures
            Some(url@) == self@,
    {
        match &self.database_url {
            Some(url) => url.as_str(),
            None => unreached(),
        }
    }
}

} // verus!
