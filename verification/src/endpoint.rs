//! The resources of the service and the requests for them.
//!
//! A resource is described by its path, its method and whether it wants a
//! credential. A request is planned here and sent elsewhere: planning
//! builds the address and decides on the credential; what comes back is
//! judged by its status before anything is decoded.

use crate::address::{
    hyphenated, hyphenated_text, parse_address, parse_error_text, push_segment, replace_path,
    url_parsed, url_with_path, url_with_segment, UrlFault, MAX_ADDRESS_LEN,
};
use crate::Error;
use vstd::prelude::*;
use vstd::string::StrSliceExecFns;

verus! {

/// Whether a resource is open to everyone or wants a credential.
#[derive(Debug, Clone, Copy, PartialEq, Eq, Structural)]
pub enum EndpointType {
    Public,
    Auth,
}

/// The method of a request.
#[derive(Debug, Clone, Copy, PartialEq, Eq, Structural)]
pub enum Method {
    Get,
    Head,
    Post,
    Put,
    Patch,
    Delete,
}

/// A request that is ready to be sent.
#[derive(Debug, Clone, PartialEq, Eq)]
pub struct Request {
    pub method: Method,
    /// The address of the resource.
    pub url: String,
    /// The credential to send as a bearer token, if any.
    pub bearer: Option<String>,
}

/// The message of the error for a resource that wants a credential when
/// none is given.
pub const MISSING_CREDENTIAL: &'static str = "the resource requires a credential and none was given";

/// The message of the error for a base address or a path that is too
/// long.
pub const ADDRESS_TOO_LONG: &'static str = "API url is too long";

/// The message of the error for a base address that is no URL.
pub const ADDRESS_UNPARSABLE: &'static str = "API url is not an absolute URL";

/// The message of the error for a base address that has no path to add
/// to.
pub const ADDRESS_NOT_A_BASE: &'static str = "API url is cannot-be-a-base";

/// The message of the error for a configuration that names no host.
pub const NO_API_HOST: &'static str = "No API host found in rewritten_config.js";

/// The lowest status that counts as success.
pub const SUCCESS_MIN: u16 = 200;

/// The highest status that counts as success.
pub const SUCCESS_MAX: u16 = 299;

/// Whether `text` is longer than an address or a path may be.
pub open spec fn too_long(text: Seq<char>) -> bool {
    text.len() > MAX_ADDRESS_LEN
}

/// The address of a resource: the base address with its path replaced by
/// `path` and, for a resource that belongs to one school, the school's
/// identifier in hyphenated form as one more path segment.
pub open spec fn resource_address(base: Seq<char>, path: Seq<char>, id: Option<u128>) -> Result<
    Seq<char>,
    UrlFault,
> {
    if too_long(base) || too_long(path) {
        Err(UrlFault::TooLong)
    } else {
        match url_with_path(base, path) {
            None => Err(UrlFault::Unparsable),
            Some(address) => match id {
                None => Ok(address),
                Some(id) => if too_long(address) {
                    Err(UrlFault::TooLong)
                } else {
                    url_with_segment(address, hyphenated_text(id))
                },
            },
        }
    }
}

/// Builds the address of a resource from the base address of the service,
/// the path of the resource and, where the resource belongs to one
/// school, the school's identifier.
pub fn resource_url(base: &str, path: &str, id: Option<u128>) -> (out: Result<String, UrlFault>)
    ensures
        match out {
            Ok(address) => resource_address(base@, path@, id) == Ok::<Seq<char>, UrlFault>(
                address@,
            ),
            Err(fault) => resource_address(base@, path@, id) == Err::<Seq<char>, UrlFault>(fault),
        },
{
    if base.unicode_len() > MAX_ADDRESS_LEN || path.unicode_len() > MAX_ADDRESS_LEN {
        return Err(UrlFault::TooLong);
    }
    match replace_path(base, path) {
        None => Err(UrlFault::Unparsable),
        Some(address) => match id {
            None => Ok(address),
            Some(id) => {
                if address.as_str().unicode_len() > MAX_ADDRESS_LEN {
                    Err(UrlFault::TooLong)
                } else {
                    let segment = hyphenated(id);
                    push_segment(address.as_str(), segment.as_str())
                }
            },
        },
    }
}

/// The message that tells of `fault`.
pub open spec fn fault_text(fault: UrlFault) -> Seq<char> {
    match fault {
        UrlFault::TooLong => ADDRESS_TOO_LONG@,
        UrlFault::Unparsable => ADDRESS_UNPARSABLE@,
        UrlFault::CannotBeABase => ADDRESS_NOT_A_BASE@,
    }
}

/// The error for an address that could not be built: the configuration of
/// the service is at fault.
pub fn address_error(fault: UrlFault) -> (error: Error)
    ensures
        error matches Error::Configuration(message) && message@ == fault_text(fault),
{
    match fault {
        UrlFault::TooLong => Error::Configuration(ADDRESS_TOO_LONG.to_owned()),
        UrlFault::Unparsable => Error::Configuration(ADDRESS_UNPARSABLE.to_owned()),
        UrlFault::CannotBeABase => Error::Configuration(ADDRESS_NOT_A_BASE.to_owned()),
    }
}

/// Whether a request for a resource of type `kind` can be made with
/// `credential`: a public resource needs none, any other needs one.
pub open spec fn permitted(kind: EndpointType, credential: Option<Seq<char>>) -> bool {
    kind == EndpointType::Public || credential is Some
}

/// The credential that goes out with a request for a resource of type
/// `kind`: the given one for a resource that wants it, none for a public
/// resource, whatever is given.
pub open spec fn bearer_for(kind: EndpointType, credential: Option<Seq<char>>) -> Option<
    Seq<char>,
> {
    match kind {
        EndpointType::Public => None,
        EndpointType::Auth => credential,
    }
}

/// The text of `credential`, if there is one.
pub open spec fn credential_text(credential: Option<&str>) -> Option<Seq<char>> {
    match credential {
        Some(token) => Some(token@),
        None => None,
    }
}

/// The text of `bearer`, if there is one.
pub open spec fn bearer_text(bearer: Option<String>) -> Option<Seq<char>> {
    match bearer {
        Some(token) => Some(token@),
        None => None,
    }
}

/// Decides on the credential of a request to the address `url`. A public
/// resource is requested without one. Any other is requested with the
/// given credential, and not at all without.
pub fn authorize(kind: EndpointType, method: Method, url: String, credential: Option<&str>) -> (out:
    Result<Request, Error>)
    ensures
        out is Ok <==> permitted(kind, credential_text(credential)),
        out is Ok ==> out->Ok_0.method == method && out->Ok_0.url == url && bearer_text(
            out->Ok_0.bearer,
        ) == bearer_for(kind, credential_text(credential)),
        out is Err ==> (out->Err_0 matches Error::Configuration(message) && message@
            == MISSING_CREDENTIAL@),
{
    match kind {
        EndpointType::Public => Ok(Request { method, url, bearer: None }),
        EndpointType::Auth => match credential {
            Some(token) => Ok(Request { method, url, bearer: Some(token.to_owned()) }),
            None => Err(Error::Configuration(MISSING_CREDENTIAL.to_owned())),
        },
    }
}

/// Plans the request for a resource: checks the credential, builds the
/// address, and puts the two together.
///
/// A resource that wants a credential is not requested without one. Else
/// the request goes to the address that [`resource_address`] names, with
/// the credential where the resource wants one; where no address can be
/// built the configuration is at fault.
pub fn plan(
    kind: EndpointType,
    method: Method,
    base: &str,
    path: &str,
    id: Option<u128>,
    credential: Option<&str>,
) -> (out: Result<Request, Error>)
    ensures
        out is Ok <==> permitted(kind, credential_text(credential)) && resource_address(
            base@,
            path@,
            id,
        ) is Ok,
        out is Ok ==> out->Ok_0.method == method && out->Ok_0.url@ == resource_address(
            base@,
            path@,
            id,
        )->Ok_0 && bearer_text(out->Ok_0.bearer) == bearer_for(kind, credential_text(credential)),
        !permitted(kind, credential_text(credential)) ==> (out matches Err(
            Error::Configuration(message),
        ) && message@ == MISSING_CREDENTIAL@),
        permitted(kind, credential_text(credential)) && resource_address(base@, path@, id) is Err
            ==> (out matches Err(Error::Configuration(message)) && message@ == fault_text(
            resource_address(base@, path@, id)->Err_0,
        )),
{
    if kind == EndpointType::Auth && credential.is_none() {
        return Err(Error::Configuration(MISSING_CREDENTIAL.to_owned()));
    }
    match resource_url(base, path, id) {
        Ok(url) => authorize(kind, method, url, credential),
        Err(fault) => Err(address_error(fault)),
    }
}

/// Whether the status of a response is in the success range.
pub open spec fn successful(status: u16) -> bool {
    SUCCESS_MIN <= status <= SUCCESS_MAX
}

/// Judges a response by its status. In the success range the body is
/// handed on to be decoded. Any other status is an error that carries the
/// status and the body; such a body is never decoded.
pub fn check_status(status: u16, body: Option<String>) -> (out: Result<Option<String>, Error>)
    ensures
        out == if successful(status) {
            Ok::<Option<String>, Error>(body)
        } else {
            Err::<Option<String>, Error>(Error::Transport { status: Some(status), body })
        },
{
    if SUCCESS_MIN <= status && status <= SUCCESS_MAX {
        Ok(body)
    } else {
        Err(Error::Transport { status: Some(status), body })
    }
}

/// Resolves the base address of the service from the host that its
/// configuration names. A configuration that names none is an error, and
/// so is a host that is no absolute URL; else the address is the URL as
/// the `url` crate writes it.
pub fn resolve_api_base(api_host: Option<&str>) -> (out: Result<String, Error>)
    ensures
        match api_host {
            None => out matches Err(Error::Configuration(message)) && message@ == NO_API_HOST@,
            Some(host) => match url_parsed(host@) {
                Some(address) => out matches Ok(base) && base@ == address,
                None => out matches Err(Error::Configuration(_)),
            },
        },
{
    match api_host {
        None => Err(Error::Configuration(NO_API_HOST.to_owned())),
        Some(host) => match parse_address(host) {
            Ok(base) => Ok(base),
            Err(fault) => Err(Error::Configuration(parse_error_text(&fault))),
        },
    }
}

/// A resource of the service: where it lies, how it is asked for, and
/// where in a response body its data stands.
pub trait Endpoint {
    /// The path of the resource below the base address.
    spec fn spec_path() -> Seq<char>;

    /// The method by which the resource is requested.
    spec fn spec_method() -> Method;

    /// The part of a response body that holds the resource's data, or the
    /// message that tells why the body does not have the expected shape.
    spec fn spec_payload(body: Seq<char>) -> core::result::Result<Seq<char>, Seq<char>>;

    /// The path of the resource below the base address.
    fn path() -> (path: &'static str)
        ensures
            path@ == Self::spec_path(),
    ;

    /// The method by which the resource is requested.
    fn method() -> (method: Method)
        ensures
            method == Self::spec_method(),
    ;

    /// Takes the resource's data out of a response body. A body that does
    /// not have the expected shape is an error and is never read as data.
    fn extract(body: &str) -> (out: core::result::Result<String, Error>)
        ensures
            match Self::spec_payload(body@) {
                Ok(payload) => out matches Ok(data) && data@ == payload,
                Err(reason) => out matches Err(Error::Decode(message)) && message@ == reason,
            },
    ;
}

/// A resource that is open to everyone.
pub trait PublicEndpoint: Endpoint {
    /// Plans the request for the resource at the service with the base
    /// address `base`. No credential goes out with it.
    fn request(base: &str) -> (out: core::result::Result<Request, Error>)
        ensures
            out is Ok <==> resource_address(base@, Self::spec_path(), None) is Ok,
            out is Ok ==> out->Ok_0.method == Self::spec_method() && out->Ok_0.url@
                == resource_address(base@, Self::spec_path(), None)->Ok_0 && out->Ok_0.bearer
                is None,
            out is Err ==> (out matches Err(Error::Configuration(message)) && message@
                == fault_text(resource_address(base@, Self::spec_path(), None)->Err_0)),
    {
        plan(EndpointType::Public, Self::method(), base, Self::path(), None, None)
    }
}

/// A resource that wants a credential.
pub trait AuthEndpoint: Endpoint {
    /// Plans the request for the resource at the service with the base
    /// address `api`. The credential `token` goes out with it.
    fn request(api: &str, token: &str) -> (out: core::result::Result<Request, Error>)
        ensures
            out is Ok <==> resource_address(api@, Self::spec_path(), None) is Ok,
            out is Ok ==> out->Ok_0.method == Self::spec_method() && out->Ok_0.url@
                == resource_address(api@, Self::spec_path(), None)->Ok_0 && bearer_text(
                out->Ok_0.bearer,
            ) == Some(token@),
            out is Err ==> (out matches Err(Error::Configuration(message)) && message@
                == fault_text(resource_address(api@, Self::spec_path(), None)->Err_0)),
    {
        plan(EndpointType::Auth, Self::method(), api, Self::path(), None, Some(token))
    }
}

} // verus!
