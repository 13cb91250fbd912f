//! The task model: one remote download job, as the vendor reports it.

use vstd::prelude::*;
use vstd::string::StrSliceExecFns;

verus! {

/// One remote download job.
///
/// `status` is an open string enumeration: the vendor defines a set of known
/// values (`waiting`, `downloading`, ...) but any other string may appear and
/// is treated as an error-like state when it mentions `error`.
pub struct Task {
    pub id: String,
    pub title: String,
    pub status: String,
    pub size: u64,
    pub size_downloaded: u64,
    pub size_uploaded: u64,
    pub speed_download: u64,
    pub speed_upload: u64,
}

/// The five characters of the marker that singles out error-like statuses.
pub open spec fn error_marker() -> Seq<char> {
    seq!['e', 'r', 'r', 'o', 'r']
}

/// True when `s` holds the error marker as a contiguous substring.
pub open spec fn has_error_marker(s: Seq<char>) -> bool {
    exists|i: int| 0 <= i && i + 5 <= s.len() && #[trigger] s.subrange(i, i + 5) == error_marker()
}

/// Whether a status string names an error-like state: it contains `"error"`.
pub fn status_is_error(status: &str) -> (r: bool)
    ensures
        r == has_error_marker(status@),
{
    let n = status.unicode_len();
    if n < 5 {
        return false;
    }
    let mut i: usize = 0;
    while i <= n - 5
        invariant
            5 <= n == status@.len(),
            i <= n - 4,
            forall|j: int| 0 <= j < i ==> #[trigger] status@.subrange(j, j + 5) != error_marker(),
        decreases n - i,
    {
        if status.get_char(i) == 'e' && status.get_char(i + 1) == 'r' && status.get_char(i + 2)
            == 'r' && status.get_char(i + 3) == 'o' && status.get_char(i + 4) == 'r' {
            assert(status@.subrange(i as int, i + 5) =~= error_marker());
            return true;
        }
        assert(status@.subrange(i as int, i + 5) != error_marker()) by {
            let sub = status@.subrange(i as int, i + 5);
            if sub == error_marker() {
                assert(sub[0] == status@[i as int]);
                assert(sub[1] == status@[i as int + 1]);
                assert(sub[2] == status@[i as int + 2]);
                assert(sub[3] == status@[i as int + 3]);
                assert(sub[4] == status@[i as int + 4]);
            }
        }
        i = i + 1;
    }
    false
}

/// The fraction of a task that has been transferred, as an exact pair of
/// numerator and denominator.
///
/// The derived percentage of a task is `transferred / size`, except that a
/// task of size zero counts as zero progress whatever was transferred, so
/// that the derivation never divides by zero.
pub fn transfer_fraction(transferred: u64, size: u64) -> (r: (u64, u64))
    ensures
        size == 0 ==> r == (0u64, 1u64),
        size != 0 ==> r == (transferred, size),
{
    if size == 0 {
        (0, 1)
    } else {
        (transferred, size)
    }
}

} // verus!
