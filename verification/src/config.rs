//! The configuration of a run and the target it is aimed at.

use crate::dispatch::{DispatchState, Dispatcher};
use crate::history::Step;
use crate::text::{append_decimal, decimal};
use vstd::prelude::*;
use vstd::string::*;

verus! {

/// The name of the one header that every request carries.
pub const HEADER_NAME: &'static str = "Content-Type";

/// The value of that header.
pub const HEADER_VALUE: &'static str = "application/json";

/// The values that a run is started with. They are read once and never
/// changed.
pub struct Configuration {
    /// The concurrency ceiling: the most requests that may be in flight.
    pub max_conn: usize,
    /// The number of requests to issue in all.
    pub count: usize,
    /// Scheme and host of the target, such as `http://localhost`.
    pub base_url: String,
    /// The port of the target, as text.
    pub port: String,
    /// The time to live that is passed in the request path.
    pub ttl: usize,
}

/// The target of the requests: `{base_url}:{port}/push/{ttl}`.
pub open spec fn url_of(base_url: Seq<char>, port: Seq<char>, ttl: nat) -> Seq<char> {
    base_url + ":"@ + port + "/push/"@ + decimal(ttl)
}

impl Configuration {
    /// The URL that every request of the run is sent to.
    pub fn target_url(&self) -> (url: String)
        ensures
            url@ == url_of(self.base_url@, self.port@, self.ttl as nat),
    {
        let mut url = self.base_url.clone();
        url.append(":");
        url.append(self.port.as_str());
        url.append("/push/");
        append_decimal(&mut url, self.ttl);
        url
    }

    /// The dispatcher of the run that this configuration describes.
    pub fn dispatcher(&self) -> (d: Dispatcher)
        ensures
            d.wf(),
            d@ == DispatchState::init(self.max_conn as nat, self.count as nat),
            d.history() == Seq::<Step>::empty(),
    {
        Dispatcher::new(self.max_conn, self.count)
    }
}

impl Default for Configuration {
    /// A hundred connections, a thousand requests, to
    /// `http://localhost:3000/push/5000`.
    fn default() -> (config: Configuration)
        ensures
            config.max_conn == 100,
            config.count == 1000,
            config.base_url@ == "http://localhost"@,
            config.port@ == "3000"@,
            config.ttl == 5000,
    {
        Configuration {
            max_conn: 100,
            count: 1000,
            base_url: "http://localhost".to_owned(),
            port: "3000".to_owned(),
            ttl: 5000,
        }
    }
}

} // verus!
