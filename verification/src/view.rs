//! Read-side projection: a stored aggregate turned into a display model at
//! request time, with status flags against a half-open active interval and
//! the time elapsed since creation broken into days, hours, minutes and
//! seconds.

use vstd::prelude::*;
use crate::schema::{opt_str_eq, OathSchema, RemedySchema};

verus! {

/// A remedy as displayed: the stored fields, the quantity still as its two
/// relational columns.
#[derive(Debug, Clone)]
pub struct ViewRemedyModel {
    pub id: i32,
    pub condition: String,
    pub statement: String,
    pub n: Option<i32>,
    pub unit: Option<String>,
    pub created_at: i64,
}

/// A duration broken into whole days, and the hour, minute and second
/// remainders.
#[derive(Debug, Clone, Copy, PartialEq, Eq, Structural)]
pub struct ViewTimeSpanModel {
    pub d: i64,
    pub h: i64,
    pub m: i64,
    pub s: i64,
}

/// An oath as displayed: the stored columns plus the derived status flags and
/// the elapsed-time record.
#[derive(Debug, Clone)]
pub struct ViewOathModel {
    pub id: i32,
    pub target: String,
    pub penalty: String,
    pub created_at: i64,
    pub starts_at: i64,
    pub ends_at: i64,
    pub ends_at_alias: String,
    pub is_ongoing: bool,
    pub is_expired: bool,
    pub remaining: ViewTimeSpanModel,
    pub remedies: Option<Vec<ViewRemedyModel>>,
}

/// An oath is ongoing exactly when `now` lies in the half-open interval from
/// its start to its end.
pub open spec fn spec_is_ongoing(starts_at: i64, ends_at: i64, now: i64) -> bool {
    starts_at <= now < ends_at
}

/// An oath is expired exactly when `now` lies strictly past its end.
pub open spec fn spec_is_expired(ends_at: i64, now: i64) -> bool {
    now > ends_at
}

/// The elapsed-time record of an elapsed duration in seconds: whole days,
/// then the hour, minute and second remainders, by flooring division.
pub open spec fn span_of(span: ViewTimeSpanModel, elapsed: int) -> bool {
    &&& span.d == elapsed / 86400
    &&& span.h == (elapsed / 3600) % 24
    &&& span.m == (elapsed / 60) % 60
    &&& span.s == elapsed % 60
}

/// A displayed remedy carries its stored row 1:1.
pub open spec fn view_remedy_of(v: ViewRemedyModel, r: RemedySchema) -> bool {
    &&& v.id == r.id
    &&& v.condition@ == r.condition@
    &&& v.statement@ == r.statement@
    &&& v.n == r.n
    &&& opt_str_eq(v.unit, r.unit)
    &&& v.created_at == r.created_at
}

/// A displayed oath against its stored aggregate at instant `now`: the stored
/// columns are copied, the status flags follow the half-open interval, the
/// elapsed record decomposes `now` minus the creation instant, and every
/// remedy is projected 1:1 in order.
pub open spec fn view_of(v: ViewOathModel, o: OathSchema, now: i64) -> bool {
    &&& v.id == o.id
    &&& v.target@ == o.target@
    &&& v.penalty@ == o.penalty@
    &&& v.created_at == o.created_at
    &&& v.starts_at == o.starts_at
    &&& v.ends_at == o.ends_at
    &&& v.ends_at_alias@ == o.ends_at_alias@
    &&& v.is_ongoing == spec_is_ongoing(o.starts_at, o.ends_at, now)
    &&& v.is_expired == spec_is_expired(o.ends_at, now)
    &&& span_of(v.remaining, now - o.created_at)
    &&& match (v.remedies, o.remedies) {
        (Some(vs), Some(rs)) => {
            &&& vs@.len() == rs@.len()
            &&& forall|k: int| 0 <= k < rs@.len() ==> view_remedy_of(#[trigger] vs@[k], rs@[k])
        },
        (None, None) => true,
        _ => false,
    }
}

/// Project one stored remedy into its display shape.
pub fn project_remedy(r: &RemedySchema) -> (v: ViewRemedyModel)
    ensures
        view_remedy_of(v, *r),
{
    ViewRemedyModel {
        id: r.id,
        condition: r.condition.clone(),
        statement: r.statement.clone(),
        n: r.n,
        unit: r.unit.clone(),
        created_at: r.created_at,
    }
}

/// Break the elapsed seconds from `created_at` to `now` into whole days and
/// the hour, minute and second remainders. The difference is taken at a
/// width that two instants can never overflow.
fn decompose_elapsed(created_at: i64, now: i64) -> (span: ViewTimeSpanModel)
    ensures
        span_of(span, now - created_at),
{
    let elapsed: i128 = now as i128 - created_at as i128;
    let d = elapsed.checked_div_euclid(86400).unwrap() as i64;
    let h = elapsed.checked_div_euclid(3600).unwrap().checked_rem_euclid(24).unwrap() as i64;
    let m = elapsed.checked_div_euclid(60).unwrap().checked_rem_euclid(60).unwrap() as i64;
    let s = elapsed.checked_rem_euclid(60).unwrap() as i64;
    ViewTimeSpanModel { d, h, m, s }
}

/// Project one stored aggregate into its display model for the instant
/// `now`: status flags against the half-open active interval, the elapsed
/// time since creation decomposed, and every remedy projected 1:1.
pub fn project_oath(o: &OathSchema, now: i64) -> (v: ViewOathModel)
    ensures
        view_of(v, *o, now),
{
    let remedies: Option<Vec<ViewRemedyModel>> = match &o.remedies {
        Some(rs) => {
            let mut vs: Vec<ViewRemedyModel> = Vec::new();
            let n = rs.len();
            let mut k: usize = 0;
            while k < n
                invariant
                    n == rs@.len(),
                    k <= n,
                    vs@.len() == k,
                    forall|j: int| 0 <= j < k ==> view_remedy_of(#[trigger] vs@[j], rs@[j]),
                decreases n - k,
            {
                vs.push(project_remedy(&rs[k]));
                k = k + 1;
            }
            Some(vs)
        },
        None => None,
    };
    ViewOathModel {
        id: o.id,
        target: o.target.clone(),
        penalty: o.penalty.clone(),
        created_at: o.created_at,
        starts_at: o.starts_at,
        ends_at: o.ends_at,
        ends_at_alias: o.ends_at_alias.clone(),
        is_ongoing: o.starts_at <= now && now < o.ends_at,
        is_expired: now > o.ends_at,
        remaining: decompose_elapsed(o.created_at, now),
        remedies,
    }
}

/// Relies on chrono's conversion from the system clock (`From<SystemTime>`
/// for a UTC instant): the current wall-clock instant, as unix seconds, with
/// an instant before the epoch mapped to a negative value rather than
/// rejected. Nothing is assumed of the value: the clock decides it.
#[verifier::external_body]
fn now_timestamp() -> i64 {
    chrono::DateTime::<chrono::Utc>::from(std::time::SystemTime::now()).timestamp()
}

/// Project one stored aggregate at the instant the system clock reads: the
/// projection of this aggregate at some instant, whatever the clock read.
pub fn project_oath_now(o: &OathSchema) -> (v: ViewOathModel)
    ensures
        exists|t: i64| #[trigger] view_of(v, *o, t),
{
    let now = now_timestamp();
    let v = project_oath(o, now);
    proof {
        assert(view_of(v, *o, now));
    }
    v
}

} // verus!
