//! Configuration for tests that talk to a stand-in AiSEG2 server.
use crate::config::Aiseg2Config;
use vstd::prelude::*;

verus! {

/// An AiSEG2 configuration for the server at `url`, with the test credentials.
pub fn test_config(url: String) -> (r: Aiseg2Config)
    ensures
        r.url@ == url@,
        r.user@ == "test_user"@,
        r.password@ == "test_password"@,
{
    Aiseg2Config { url, user: String::from_str("test_user"), password: String::from_str("test_password") }
}

} // verus!
