use vstd::prelude::*;

use super::Method;

verus! {

// Static endpoints of the Apisonator service.

pub const AUTHORIZE_ENDPOINT: (Method, &'static str) = (
    Method::GET,
    "/transactions/authorize.xml",
);

pub const AUTHREP_ENDPOINT: (Method, &'static str) = (Method::GET, "/transactions/authrep.xml");

pub const REPORT_ENDPOINT: (Method, &'static str) = (Method::POST, "/transactions.xml");

pub const OAUTH_AUTHORIZE_ENDPOINT: (Method, &'static str) = (
    Method::GET,
    "/transactions/oauth_authorize.xml",
);

pub const OAUTH_AUTHREP_ENDPOINT: (Method, &'static str) = (
    Method::GET,
    "/transactions/oauth_authrep.xml",
);

} // verus!
