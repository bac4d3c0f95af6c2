//! What the route handlers of the server decide, apart from serving.
use rand::Rng;
use vstd::prelude::*;
use vstd::string::*;

use crate::constants::SRC_DATE_FMT;
use crate::datetime::{formatted_date, Date};

verus! {

/// `rand::thread_rng` and `Rng::gen_range` over the range from 0 up to
/// `bound`, without `bound` itself. Trusted: the pick lies in that range;
/// nothing is said of which number it is. `rand` panics on an empty range,
/// so `bound` must be positive.
#[verifier::external_body]
fn random_below(bound: i64) -> (pick: i64)
    requires
        bound > 0,
    ensures
        0 <= pick < bound,
{
    rand::thread_rng().gen_range(0..bound)
}

/// The date `pick` days after `first`, if that is a date from `first` on
/// and before `latest`.
pub fn comic_date_at(first: &Date, latest: &Date, pick: i64) -> (date: Option<Date>)
    ensures
        date is Some <==> 0 <= pick < latest@ - first@,
        date matches Some(d) ==> d@ == first@ + pick,
{
    if 0 <= pick && pick < latest.days_since(first) {
        proof {
            use_type_invariant(first);
            use_type_invariant(latest);
            first.lemma_day_number_in_range();
            latest.lemma_day_number_in_range();
        }
        first.checked_add_days(pick)
    } else {
        None
    }
}

/// A date chosen at random from `first` on and before `latest`; `None`
/// where there is no such date.
pub fn random_comic_date(first: &Date, latest: &Date) -> (date: Option<Date>)
    ensures
        date is Some <==> first@ < latest@,
        date matches Some(d) ==> first@ <= d@ < latest@,
{
    let span = latest.days_since(first);
    if span > 0 {
        // Offset (in days) from the first date
        let rand_offset = random_below(span);
        comic_date_at(first, latest, rand_offset)
    } else {
        None
    }
}

/// The address of the page of the comic of `date`, below the root of the
/// server.
pub fn comic_location(date: &Date) -> (location: String)
    ensures
        location@ == "/"@ + formatted_date(date@, SRC_DATE_FMT@),
{
    let day = date.to_src_string();
    String::from_str("/").concat(day.as_str())
}

} // verus!
