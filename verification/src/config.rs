//! Where the upstream lives and the key that opens it.

use vstd::prelude::*;

verus! {

/// Settings fixed at startup and handed to every handler. Nothing in the
/// library changes them.
#[derive(Debug, PartialEq, Eq)]
pub struct Config {
    /// Prefix of every upstream URL.
    pub moralis_base_url: String,
    /// Secret sent with every upstream call.
    pub moralis_api_key: String,
}

/// A [`Config`] as plain text.
pub ghost struct ConfigView {
    pub base_url: Seq<char>,
    pub api_key: Seq<char>,
}

impl View for Config {
    type V = ConfigView;

    open spec fn view(&self) -> ConfigView {
        ConfigView { base_url: self.moralis_base_url@, api_key: self.moralis_api_key@ }
    }
}

impl Clone for Config {
    fn clone(&self) -> (copy: Config)
        ensures
            copy@ == self@,
    {
        Config {
            moralis_base_url: self.moralis_base_url.clone(),
            moralis_api_key: self.moralis_api_key.clone(),
        }
    }
}

impl Config {
    /// Settings for the upstream at `base_url`, opened with `api_key`.
    pub fn new(base_url: &str, api_key: &str) -> (config: Config)
        ensures
            config@.base_url == base_url@,
            config@.api_key == api_key@,
    {
        Config {
            moralis_base_url: String::from_str(base_url),
            moralis_api_key: String::from_str(api_key),
        }
    }
}

} // verus!
