//! Rendering of unix-seconds timestamps as human-readable text.

use vstd::prelude::*;

verus! {

/// The textual rendering of a unix-seconds timestamp. The rendering is
/// produced by an outside date-time library; it depends on the timestamp
/// alone, so it is named here rather than written out.
pub uninterp spec fn timestamp_text(t: i64) -> Seq<char>;

/// Relies on chrono: `DateTime::<Utc>::from_timestamp(t, 0)` is `Some` for
/// every `t` in `[0, MAX_TIMESTAMP]` (it is `None` only when the day count
/// leaves the `i32` range), and the display of the resulting `NaiveDateTime`
/// is computed from the timestamp alone.
#[verifier::external_body]
pub(crate) fn format_timestamp(t: i64) -> (r: String)
    requires
        0 <= t <= crate::MAX_TIMESTAMP,
    ensures
        r@ == timestamp_text(t),
{
    chrono::DateTime::<chrono::Utc>::from_timestamp(t, 0).unwrap().naive_utc().to_string()
}

} // verus!
