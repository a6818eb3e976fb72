//! The OAuth settings of the X application.

use vstd::prelude::*;
use vstd::string::StringExecFns;

verus! {

/// The OAuth settings: the application's identifier and secret, and the
/// addresses of the login flow.
#[derive(Debug, Clone, PartialEq)]
pub struct TwitterConfig {
    pub client_id: String,
    pub client_secret: String,
    pub authorize_url: String,
    pub redirect_url: String,
    pub token_url: String,
}

/// The names of the settings, in the order they are read.
pub open spec fn config_variables() -> Seq<Seq<char>> {
    seq![
        "TWITTER_CONSUMER_CLIENT_ID"@,
        "TWITTER_CONSUMER_SECRET"@,
        "TWITTER_AUTHORIZE_URL"@,
        "TWITTER_REDIRECT_URL"@,
        "TWITTER_TOKEN_URL"@,
    ]
}

/// The message for a variable that is not set.
pub open spec fn missing_variable_message(name: Seq<char>) -> Seq<char> {
    "Expected environment variable '"@ + name + "' to be set"@
}

impl TwitterConfig {
    /// The names of the environment variables that hold the settings, in the
    /// order they are read.
    pub fn variable_names() -> (v: Vec<&'static str>)
        ensures
            v@.len() == 5,
            forall|i: int| 0 <= i < 5 ==> (#[trigger] v@[i])@ == config_variables()[i],
    {
        let mut v: Vec<&'static str> = Vec::new();
        v.push("TWITTER_CONSUMER_CLIENT_ID");
        v.push("TWITTER_CONSUMER_SECRET");
        v.push("TWITTER_AUTHORIZE_URL");
        v.push("TWITTER_REDIRECT_URL");
        v.push("TWITTER_TOKEN_URL");
        v
    }

    /// The settings made of the values of the variables, in the order of
    /// [`TwitterConfig::variable_names`] (`None` for a variable that is not
    /// set). The first missing variable, in that order, makes it fail with
    /// "Expected environment variable '{name}' to be set".
    pub fn from_values(values: Vec<Option<String>>) -> (r: Result<Self, String>)
        requires
            values@.len() == 5,
        ensures
            r is Ok <==> forall|i: int| 0 <= i < 5 ==> (#[trigger] values@[i]) is Some,
            match r {
                Ok(c) => {
                    &&& c.client_id == values@[0]->0
                    &&& c.client_secret == values@[1]->0
                    &&& c.authorize_url == values@[2]->0
                    &&& c.redirect_url == values@[3]->0
                    &&& c.token_url == values@[4]->0
                },
                Err(m) => exists|i: int| {
                    &&& 0 <= i < 5
                    &&& (#[trigger] values@[i]) is None
                    &&& forall|j: int| 0 <= j < i ==> (#[trigger] values@[j]) is Some
                    &&& m@ == missing_variable_message(config_variables()[i])
                },
            },
    {
        match Self::first_missing(&values) {
            Some(i) => {
                let names = Self::variable_names();
                let mut m = "Expected environment variable '".to_owned();
                m.append(names[i]);
                m.append("' to be set");
                Err(m)
            },
            None => {
                let mut values = values;
                let token_url = values.pop().unwrap().unwrap();
                let redirect_url = values.pop().unwrap().unwrap();
                let authorize_url = values.pop().unwrap().unwrap();
                let client_secret = values.pop().unwrap().unwrap();
                let client_id = values.pop().unwrap().unwrap();
                Ok(TwitterConfig { client_id, client_secret, authorize_url, redirect_url, token_url })
            },
        }
    }

    /// The first variable, in reading order, whose value is missing.
    pub fn first_missing(values: &Vec<Option<String>>) -> (r: Option<usize>)
        requires
            values@.len() == 5,
        ensures
            match r {
                Some(i) => i < 5 && values@[i as int] is None && forall|j: int| 0 <= j < i ==> (#[trigger] values@[j]) is Some,
                None => forall|j: int| 0 <= j < 5 ==> (#[trigger] values@[j]) is Some,
            },
    {
        let mut i: usize = 0;
        while i < 5
            invariant
                values@.len() == 5,
                0 <= i <= 5,
                forall|j: int| 0 <= j < i ==> (#[trigger] values@[j]) is Some,
            decreases 5 - i,
        {
            if values[i].is_none() {
                return Some(i);
            }
            i = i + 1;
        }
        None
    }
}

} // verus!
