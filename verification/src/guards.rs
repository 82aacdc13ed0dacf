//! Request guards: the upload key check and the numbering of requests.

use vstd::prelude::*;

use crate::decimal::{decimal, u64_to_decimal};

verus! {

/// Proof that a request carries a valid upload key.
pub struct UploadAuth {}

/// Why an upload key was refused.
#[derive(Debug, PartialEq, Eq, Structural, Clone, Copy)]
pub enum ApiKeyError {
    Missing,
    Invalid,
    Other,
}

/// A refused request: the HTTP status to answer with, and the reason.
#[derive(Debug, PartialEq, Eq, Structural, Clone, Copy)]
pub struct Rejection {
    pub status: u16,
    pub error: ApiKeyError,
}

/// The first decision of the upload key check.
pub enum UploadAuthStart {
    /// Look the key up among the upload keys in the database.
    LookUpKey(String),
    /// Answer at once.
    Reject(Rejection),
}

/// Starts the upload key check from whether a database connection could be
/// had and the value of the `X-Apollo-Upload-Key` header.
pub fn upload_auth_start(db_available: bool, api_key: Option<&str>) -> (r: UploadAuthStart)
    ensures
        !db_available ==> r == UploadAuthStart::Reject(Rejection { status: 500, error: ApiKeyError::Other }),
        db_available && api_key is None ==> r == UploadAuthStart::Reject(
            Rejection { status: 403, error: ApiKeyError::Missing },
        ),
        db_available && api_key is Some ==> (r matches UploadAuthStart::LookUpKey(k) && k@ == api_key->0@),
{
    if !db_available {
        return UploadAuthStart::Reject(Rejection { status: 500, error: ApiKeyError::Other });
    }
    match api_key {
        None => UploadAuthStart::Reject(Rejection { status: 403, error: ApiKeyError::Missing }),
        Some(key) => UploadAuthStart::LookUpKey(key.to_string()),
    }
}

/// Finishes the upload key check from the database lookup: `Ok(true)` when a
/// matching key was found, `Ok(false)` when none was, `Err` when the query failed.
pub fn upload_auth_finish(lookup: Result<bool, ()>) -> (r: Result<UploadAuth, Rejection>)
    ensures
        lookup is Err ==> r == Err::<UploadAuth, Rejection>(Rejection { status: 500, error: ApiKeyError::Other }),
        lookup == Ok::<bool, ()>(true) ==> r is Ok,
        lookup == Ok::<bool, ()>(false) ==> r == Err::<UploadAuth, Rejection>(
            Rejection { status: 403, error: ApiKeyError::Invalid },
        ),
{
    match lookup {
        Err(_) => Err(Rejection { status: 500, error: ApiKeyError::Other }),
        Ok(true) => Ok(UploadAuth {  }),
        Ok(false) => Err(Rejection { status: 403, error: ApiKeyError::Invalid }),
    }
}

/// The id that comes `n` requests after `start`, counting with wrap-around.
pub open spec fn id_after(start: u64, n: nat) -> u64 {
    ((start + n) % 0x1_0000_0000_0000_0000) as u64
}

/// Sets up request numbering when the server starts.
pub struct RequestIDFairing {
    start: u64,
}

impl RequestIDFairing {
    /// The first id that will be handed out.
    pub closed spec fn first_id(&self) -> u64 {
        self.start
    }

    /// Numbering that starts at zero.
    pub fn new() -> (r: Self)
        ensures
            r.first_id() == 0,
    {
        RequestIDFairing { start: 0 }
    }

    /// The counter that the server keeps while it runs.
    pub fn counter(&self) -> (r: RequestIDCounter)
        ensures
            r.next_id() == self.first_id(),
    {
        RequestIDCounter { next: self.start }
    }
}

/// Hands out request ids one after another.
pub struct RequestIDCounter {
    next: u64,
}

impl RequestIDCounter {
    /// The id that the next request gets.
    pub closed spec fn next_id(&self) -> u64 {
        self.next
    }

    /// Gives the next request its id and moves on by one, wrapping around
    /// after the largest `u64`.
    pub fn issue(&mut self) -> (r: RequestID)
        ensures
            r.id == old(self).next_id(),
            final(self).next_id() == id_after(old(self).next_id(), 1),
    {
        let id = self.next;
        self.next = self.next.wrapping_add(1);
        RequestID { id }
    }
}

/// The number of a request, for the log.
pub struct RequestID {
    pub id: u64,
}

impl RequestID {
    /// The id in decimal, as the log prints it.
    pub fn to_string(&self) -> (r: String)
        ensures
            r@ == decimal(self.id as nat),
    {
        u64_to_decimal(self.id)
    }
}

/// Issuing one id after another walks the ids in order: after `n` issues the
/// counter stands `n` places after where it started.
pub proof fn law_ids_follow_one_another(start: u64, n: nat)
    ensures
        id_after(id_after(start, n), 1) == id_after(start, n + 1),
{
    let m: int = 0x1_0000_0000_0000_0000;
    assert(((start + n) % m + 1) % m == (start + n + 1) % m) by (nonlinear_arith)
        requires
            m > 0,
    ;
}

/// No id comes back before all of the 2^64 ids have been handed out.
pub proof fn law_ids_are_distinct_until_wrap(start: u64, i: nat, j: nat)
    requires
        i < j < 0x1_0000_0000_0000_0000,
    ensures
        id_after(start, i) != id_after(start, j),
{
    let m: int = 0x1_0000_0000_0000_0000;
    let a: int = start + i;
    let b: int = start + j;
    assert(a % m != b % m) by (nonlinear_arith)
        requires
            m > 0,
            a < b,
            b - a < m,
    ;
}

/// Where a counter that started at `start` stands after `n` issues, each of
/// which moves it on by one (as `RequestIDCounter::issue` does); the `k`-th issue
/// (counting from one) returns `after_issues(start, k - 1)`.
pub open spec fn after_issues(start: u64, n: nat) -> u64
    decreases n,
{
    if n == 0 {
        start
    } else {
        id_after(after_issues(start, (n - 1) as nat), 1)
    }
}

/// After `n` issues the counter stands `n` places after where it started.
pub proof fn law_n_issues(start: u64, n: nat)
    ensures
        after_issues(start, n) == id_after(start, n),
    decreases n,
{
    if n == 0 {
        assert((start + 0nat) % 0x1_0000_0000_0000_0000 == start as int);
    } else {
        law_n_issues(start, (n - 1) as nat);
        law_ids_follow_one_another(start, (n - 1) as nat);
    }
}

/// The first `n` ids that a counter hands out (`n` at most 2^64) are pairwise
/// distinct: they are `start, start + 1, .., start + n - 1`, wrapping around.
pub proof fn law_issued_ids_distinct(start: u64, i: nat, j: nat)
    requires
        i < j < 0x1_0000_0000_0000_0000,
    ensures
        after_issues(start, i) != after_issues(start, j),
{
    law_n_issues(start, i);
    law_n_issues(start, j);
    law_ids_are_distinct_until_wrap(start, i, j);
}

/// With the numbering that the server sets up (`RequestIDFairing::new`, which
/// starts at zero), the `k`-th request gets id `k - 1`.
pub proof fn law_kth_request_id(k: nat)
    requires
        1 <= k <= 0x1_0000_0000_0000_0000,
    ensures
        after_issues(0, (k - 1) as nat) == k - 1,
{
    law_n_issues(0, (k - 1) as nat);
}

} // verus!
