//! Acceptance statistics for a student's college list.
//!
//! The crate turns the historical application records of a school into
//! acceptance tallies: overall, per decision plan, and restricted to the
//! applicants whose test score and GPA lie close to the student's own.
//! It also describes the resources of the admissions service that the
//! records come from and plans the requests for them. Every function is
//! verified against a contract over mathematical models of the data.

pub mod address;
pub mod endpoint;
pub mod laws;
pub mod lines;
pub mod record;
pub mod report;
pub mod run;
pub mod stats;
pub mod summary;
pub mod types;
pub mod util;

use crate::address::url_parsed;
use crate::endpoint::{
    bearer_text, fault_text, resource_address, AuthEndpoint, Endpoint, Method, PublicEndpoint,
    Request, NO_API_HOST,
};
use crate::types::{ApplicationStatistics, College, Config, ScattergramSources, SchoolsImThinkingAbout};
use vstd::prelude::*;

verus! {

/// Why an operation of this crate failed.
#[derive(Debug, Clone, PartialEq, Eq)]
pub enum Error {
    /// The service answered with a status outside the success range, or
    /// could not be reached at all, in which case there is no status.
    Transport { status: Option<u16>, body: Option<String> },
    /// A response body did not have the expected shape.
    Decode(String),
    /// A credential that the resource requires is missing, or the base
    /// address of the service cannot be resolved.
    Configuration(String),
    /// The statistics close to a profile were asked for, and the profile
    /// lacks a value that they need.
    Precondition(String),
}

/// The result of an operation of this crate.
pub type Result<T> = std::result::Result<T, Error>;

/// The mathematical value of a [`Client`].
pub struct Session {
    /// The student's credential.
    pub key: Seq<char>,
    /// The base address of the service.
    pub api_base: Seq<char>,
}

/// A session with the service: the base address that its configuration
/// names and the student's credential. It plans the requests of the
/// session; it keeps nothing of what they fetch.
#[derive(Debug, Clone)]
pub struct Client {
    key: String,
    api_base: String,
}

impl View for Client {
    type V = Session;

    closed spec fn view(&self) -> Session {
        Session { key: self.key@, api_base: self.api_base@ }
    }
}

impl Client {
    /// Opens a session with the credential `key` at the service that
    /// `config` describes. A configuration that names no host, or one that
    /// is no absolute URL, opens none.
    pub fn new_with_config(key: String, config: &Config) -> (out: Result<Client>)
        ensures
            match config.api_host {
                None => out matches Err(Error::Configuration(message)) && message@ == NO_API_HOST@,
                Some(host) => match url_parsed(host@) {
                    Some(address) => out matches Ok(client) && client@ == (Session {
                        key: key@,
                        api_base: address,
                    }),
                    None => out matches Err(Error::Configuration(_)),
                },
            },
    {
        match config.api_base() {
            Ok(api_base) => Ok(Client { key, api_base }),
            Err(error) => Err(error),
        }
    }

    /// Plans the request that fetches the schools on the student's list.
    pub fn get_schools_im_thinking_about(&self) -> (out: Result<Request>)
        ensures
            planned_for(
                out,
                Method::Get,
                self@.api_base,
                SchoolsImThinkingAbout::spec_path(),
                None,
                Some(self@.key),
            ),
    {
        self.fetch_auth::<SchoolsImThinkingAbout>()
    }

    /// Plans the request that fetches the colleges for which the student's
    /// school has statistics.
    pub fn get_scattergram_sources(&self) -> (out: Result<Request>)
        ensures
            planned_for(
                out,
                Method::Get,
                self@.api_base,
                ScattergramSources::spec_path(),
                None,
                Some(self@.key),
            ),
    {
        self.fetch_auth::<ScattergramSources>()
    }

    /// Plans the request that fetches the college with the identifier
    /// `uuid`.
    pub fn get_college_info_by_uuid(&self, uuid: u128) -> (out: Result<Request>)
        ensures
            planned_for(
                out,
                Method::Get,
                self@.api_base,
                College::spec_path(),
                Some(uuid),
                Some(self@.key),
            ),
    {
        College::request(self.api_base(), self.key(), uuid)
    }

    /// Plans the request that fetches the application statistics of the
    /// college with the identifier `uuid`.
    pub fn get_application_stats_by_uuid(&self, uuid: u128) -> (out: Result<Request>)
        ensures
            planned_for(
                out,
                Method::Get,
                self@.api_base,
                ApplicationStatistics::spec_path(),
                Some(uuid),
                Some(self@.key),
            ),
    {
        ApplicationStatistics::request(self.api_base(), self.key(), uuid)
    }

    /// Plans the request that fetches the public resource `T`.
    pub fn fetch<T: PublicEndpoint>(&self) -> (out: Result<Request>)
        ensures
            planned_for(out, T::spec_method(), self@.api_base, T::spec_path(), None, None),
    {
        T::request(self.api_base())
    }

    /// Plans the request that fetches the resource `T` with the session's
    /// credential.
    pub fn fetch_auth<T: AuthEndpoint>(&self) -> (out: Result<Request>)
        ensures
            planned_for(
                out,
                T::spec_method(),
                self@.api_base,
                T::spec_path(),
                None,
                Some(self@.key),
            ),
    {
        T::request(self.api_base(), self.key())
    }

    /// The student's credential.
    pub fn key(&self) -> (key: &str)
        ensures
            key@ == self@.key,
    {
        self.key.as_str()
    }

    /// The base address of the service.
    pub fn api_base(&self) -> (base: &str)
        ensures
            base@ == self@.api_base,
    {
        self.api_base.as_str()
    }
}

/// Whether `out` is the plan of the request by `method` for the resource at
/// `path` below `base`, for the school `id` where the resource belongs to one,
/// with the credential `bearer`: the request to the resource's address,
/// or the error that tells why the address cannot be built.
pub open spec fn planned_for(
    out: Result<Request>,
    method: Method,
    base: Seq<char>,
    path: Seq<char>,
    id: Option<u128>,
    bearer: Option<Seq<char>>,
) -> bool {
    match resource_address(base, path, id) {
        Ok(address) => out matches Ok(request) && request.method == method && request.url@
            == address && bearer_text(request.bearer) == bearer,
        Err(fault) => out matches Err(Error::Configuration(message)) && message@ == fault_text(
            fault,
        ),
    }
}

} // verus!
