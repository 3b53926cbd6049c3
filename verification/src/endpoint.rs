//! The HTTP boundary as a function: the route table, and the mapping from
//! intake outcomes to status codes.

use vstd::prelude::*;
use crate::form::{parse_form, spec_parse_form};
use crate::intake::{ingest, ingest_outcome, IntakeError};
use crate::store::{inserted, SubscriptionStore};

verus! {

/// A response of the boundary: a status code and a body.
pub struct HttpResponse {
    pub status: u16,
    pub body: String,
}

/// The status that one `POST /subscriptions` with the given body returns
/// against the given store: a body without usable fields is a client
/// error, rejected field values are a client error, a storage failure is a
/// server error, and a stored subscriber is success.
pub open spec fn subscribe_status(s: SubscriptionStore, body: Seq<u8>) -> u16 {
    match spec_parse_form(body) {
        Result::Err(_) => 422,
        Result::Ok(fields) => match ingest_outcome(s, fields.0, fields.1) {
            Result::Err(IntakeError::InvalidInput) => 400,
            Result::Err(IntakeError::StorageFailure(_)) => 500,
            Result::Ok(_) => 200,
        },
    }
}

/// `GET /health_check`: always success, with an empty body, independent of
/// any store.
pub fn health_check() -> (r: HttpResponse)
    ensures
        r.status == 200,
        r.body@.len() == 0,
{
    HttpResponse { status: 200, body: String::new() }
}

/// `POST /subscriptions`: decodes the body, runs the intake, and answers
/// with the status `subscribe_status` gives.  Exactly the successful
/// request stores its one record; every other request leaves the store
/// untouched.
pub fn subscribe(body: &[u8], store: &mut SubscriptionStore) -> (status: u16)
    requires
        old(store).wf(),
        old(store).next_id < u64::MAX,
    ensures
        final(store).wf(),
        status == subscribe_status(*old(store), body@),
        status != 200 ==> *final(store) == *old(store),
        status == 200 ==> spec_parse_form(body@) is Ok && inserted(
            *old(store),
            *final(store),
            spec_parse_form(body@)->Ok_0.0,
            spec_parse_form(body@)->Ok_0.1,
        ),
{
    let form = match parse_form(body) {
        Ok(fd) => fd,
        Err(_) => {
            return 422;
        },
    };
    match ingest(form, store) {
        Ok(_) => 200,
        Err(IntakeError::InvalidInput) => 400,
        Err(IntakeError::StorageFailure(_)) => 500,
    }
}

/// The bytes of the method `GET`.
pub open spec fn method_get() -> Seq<u8> {
    seq![0x47u8, 0x45u8, 0x54u8]
}

/// The bytes of the method `POST`.
pub open spec fn method_post() -> Seq<u8> {
    seq![0x50u8, 0x4Fu8, 0x53u8, 0x54u8]
}

/// The bytes of the path `/health_check`.
pub open spec fn health_check_path() -> Seq<u8> {
    seq![
        0x2Fu8,
        0x68u8,
        0x65u8,
        0x61u8,
        0x6Cu8,
        0x74u8,
        0x68u8,
        0x5Fu8,
        0x63u8,
        0x68u8,
        0x65u8,
        0x63u8,
        0x6Bu8,
    ]
}

/// The bytes of the path `/subscriptions`.
pub open spec fn subscriptions_path() -> Seq<u8> {
    seq![
        0x2Fu8,
        0x73u8,
        0x75u8,
        0x62u8,
        0x73u8,
        0x63u8,
        0x72u8,
        0x69u8,
        0x70u8,
        0x74u8,
        0x69u8,
        0x6Fu8,
        0x6Eu8,
        0x73u8,
    ]
}

fn method_get_exec() -> (k: Vec<u8>)
    ensures
        k@ == method_get(),
{
    let mut k: Vec<u8> = Vec::new();
    k.push(0x47);
    k.push(0x45);
    k.push(0x54);
    proof {
        assert(k@ =~= method_get());
    }
    k
}

fn method_post_exec() -> (k: Vec<u8>)
    ensures
        k@ == method_post(),
{
    let mut k: Vec<u8> = Vec::new();
    k.push(0x50);
    k.push(0x4F);
    k.push(0x53);
    k.push(0x54);
    proof {
        assert(k@ =~= method_post());
    }
    k
}

fn health_check_path_exec() -> (k: Vec<u8>)
    ensures
        k@ == health_check_path(),
{
    let mut k: Vec<u8> = Vec::new();
    k.push(0x2F);
    k.push(0x68);
    k.push(0x65);
    k.push(0x61);
    k.push(0x6C);
    k.push(0x74);
    k.push(0x68);
    k.push(0x5F);
    k.push(0x63);
    k.push(0x68);
    k.push(0x65);
    k.push(0x63);
    k.push(0x6B);
    proof {
        assert(k@ =~= health_check_path());
    }
    k
}

fn subscriptions_path_exec() -> (k: Vec<u8>)
    ensures
        k@ == subscriptions_path(),
{
    let mut k: Vec<u8> = Vec::new();
    k.push(0x2F);
    k.push(0x73);
    k.push(0x75);
    k.push(0x62);
    k.push(0x73);
    k.push(0x63);
    k.push(0x72);
    k.push(0x69);
    k.push(0x70);
    k.push(0x74);
    k.push(0x69);
    k.push(0x6F);
    k.push(0x6E);
    k.push(0x73);
    proof {
        assert(k@ =~= subscriptions_path());
    }
    k
}

/// The route table: `GET /health_check` and `POST /subscriptions` are the
/// only routes; anything else is not found.  Every response of this
/// boundary has an empty body.
pub fn handle_request(
    method: &[u8],
    path: &[u8],
    body: &[u8],
    store: &mut SubscriptionStore,
) -> (r: HttpResponse)
    requires
        old(store).wf(),
        old(store).next_id < u64::MAX,
    ensures
        final(store).wf(),
        r.body@.len() == 0,
        method@ == method_get() && path@ == health_check_path() ==> r.status == 200
            && *final(store) == *old(store),
        method@ == method_post() && path@ == subscriptions_path() ==> r.status
            == subscribe_status(*old(store), body@),
        !(method@ == method_get() && path@ == health_check_path()) && !(method@ == method_post()
            && path@ == subscriptions_path()) ==> r.status == 404 && *final(store) == *old(store),
        r.status != 200 || (method@ == method_get() && path@ == health_check_path())
            ==> *final(store) == *old(store),
{
    let get = method_get_exec();
    let hc = health_check_path_exec();
    if crate::form::bytes_eq(method, get.as_slice()) && crate::form::bytes_eq(
        path,
        hc.as_slice(),
    ) {
        return health_check();
    }
    let post = method_post_exec();
    let subs = subscriptions_path_exec();
    if crate::form::bytes_eq(method, post.as_slice()) && crate::form::bytes_eq(
        path,
        subs.as_slice(),
    ) {
        let status = subscribe(body, store);
        return HttpResponse { status, body: String::new() };
    }
    HttpResponse { status: 404, body: String::new() }
}

} // verus!
