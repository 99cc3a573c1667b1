//! The update downloader's decision core: HTTP status gating, the
//! streamed-download progress state machine, percent computation,
//! generated destination file names, and the launch precondition.
//!
//! All I/O (the HTTP request, the chunk stream, file writes, the process
//! spawn) is performed by the caller, which feeds plain values into these
//! functions and forwards the progress events they build.

use vstd::prelude::*;
use vstd::string::StringExecFns;
use vstd::arithmetic::div_mod::{lemma_div_is_ordered, lemma_div_multiples_vanish};
use vstd::arithmetic::mul::lemma_mul_inequality;

use crate::text::{dec_digits, u64_dec_string};

verus! {

/// Progress payload emitted to the observer after every chunk.
#[derive(Clone, Debug)]
pub struct DownloadProgress {
    pub percent: u32,
    pub downloaded: u64,
    pub total: u64,
    pub message: String,
}

/// A successful HTTP status, as the download accepts it.
pub open spec fn is_success_status(status: int) -> bool {
    200 <= status < 300
}

/// The declared total size: the content length if the response carries
/// one, zero to signal an unknown total.
pub open spec fn spec_total_of(content_length: Option<u64>) -> u64 {
    match content_length {
        Some(n) => n,
        None => 0,
    }
}

/// Percent shown for `downloaded` bytes out of `total`: zero while the
/// total is unknown, otherwise `downloaded / total` scaled to at most 95.
/// The last five percent are reserved for the hand-off to the launcher.
pub open spec fn spec_percent(downloaded: int, total: int) -> int {
    if total <= 0 {
        0
    } else if downloaded * 95 / total > 95 {
        95
    } else {
        downloaded * 95 / total
    }
}

/// Sum of the chunk sizes recorded so far.
pub open spec fn sum_of(chunks: Seq<u64>) -> int
    decreases chunks.len(),
{
    if chunks.len() == 0 {
        0
    } else {
        sum_of(chunks.drop_last()) + chunks.last()
    }
}

/// The message carried by a progress event.
pub open spec fn progress_message(percent: nat) -> Seq<char> {
    "Descargando... "@ + dec_digits(percent) + "%"@
}

/// The message reported for a response whose status is not a success.
pub open spec fn http_error_message(status: nat) -> Seq<char> {
    "Error HTTP "@ + dec_digits(status) + " al descargar el instalador"@
}

/// The message reported when the installer path does not exist.
pub open spec fn not_found_message(path: Seq<char>) -> Seq<char> {
    "El instalador no existe en: "@ + path
}

/// The generated destination file name for a download started at the
/// given timestamp.
pub open spec fn spec_update_filename(timestamp: u64) -> Seq<char> {
    "JamrockAdmin-update-"@ + dec_digits(timestamp as nat) + ".exe"@
}

/// Percent values never exceed 95 and never go negative.
///
/// Law: every reported percent lies in `0 ..= 95`.
pub proof fn lemma_percent_bounds(downloaded: int, total: int)
    requires
        downloaded >= 0,
    ensures
        0 <= spec_percent(downloaded, total) <= 95,
{
    if total > 0 {
        lemma_div_is_ordered(0, downloaded * 95, total);
    }
}

/// Percent is monotone in the number of bytes downloaded.
///
/// Law: within one download (fixed total), progress percents reported for
/// non-decreasing byte counts are non-decreasing.
pub proof fn lemma_percent_monotone(d1: int, d2: int, total: int)
    requires
        0 <= d1 <= d2,
    ensures
        spec_percent(d1, total) <= spec_percent(d2, total),
{
    if total > 0 {
        lemma_mul_inequality(d1, d2, 95);
        lemma_div_is_ordered(d1 * 95, d2 * 95, total);
    }
}

/// While the total is unknown (zero), every percent is zero.
///
/// Law: an unknown content length pins every progress event's percent to 0.
pub proof fn lemma_percent_unknown_total(downloaded: int)
    ensures
        spec_percent(downloaded, 0) == 0,
{
}

/// A finished download with a known total reports exactly 95 percent.
///
/// Law: when the downloaded byte count reaches the (positive) total, the
/// percent is the cap itself.
pub proof fn lemma_percent_complete(total: int)
    requires
        total > 0,
    ensures
        spec_percent(total, total) == 95,
{
    lemma_div_multiples_vanish(95, total);
    assert(total * 95 == 95 * total) by (nonlinear_arith);
}

/// The percent reported for `downloaded` bytes out of `total`.
pub fn percent_of(downloaded: u64, total: u64) -> (r: u32)
    ensures
        r == spec_percent(downloaded as int, total as int),
{
    if total == 0 {
        0
    } else {
        let q: u128 = (downloaded as u128) * 95 / (total as u128);
        if q > 95 {
            95
        } else {
            q as u32
        }
    }
}

/// One in-flight download: the declared total, the bytes streamed so far,
/// and the last percent reported, together with the recorded chunk sizes.
pub struct DownloadSession {
    total: u64,
    downloaded: u64,
    last_percent: u32,
    history: Ghost<Seq<u64>>,
}

impl DownloadSession {
    /// The declared total size (zero while unknown).
    pub closed spec fn spec_total(&self) -> u64 {
        self.total
    }

    /// Bytes streamed and written so far.
    pub closed spec fn spec_downloaded(&self) -> u64 {
        self.downloaded
    }

    /// The percent carried by the latest progress event (zero before the
    /// first chunk).
    pub closed spec fn spec_last_percent(&self) -> u32 {
        self.last_percent
    }

    /// The sizes of the chunks recorded so far, in arrival order.
    pub closed spec fn history(&self) -> Seq<u64> {
        self.history@
    }

    /// Session invariant: the byte count is the sum of the recorded chunk
    /// sizes, and the last reported percent matches that count.
    pub open spec fn wf(&self) -> bool {
        &&& self.spec_downloaded() as int == sum_of(self.history())
        &&& self.spec_last_percent() as int == spec_percent(
            self.spec_downloaded() as int,
            self.spec_total() as int,
        )
    }

    /// Gate a fresh download on the response status: a success status
    /// opens a streaming session (before which no file is created), any
    /// other status fails at once with the HTTP error message.
    pub fn begin(status: u16, content_length: Option<u64>) -> (r: Result<DownloadSession, String>)
        ensures
            r is Ok <==> is_success_status(status as int),
            r matches Ok(s) ==> {
                &&& s.wf()
                &&& s.spec_total() == spec_total_of(content_length)
                &&& s.spec_downloaded() == 0
                &&& s.spec_last_percent() == 0
                &&& s.history() == Seq::<u64>::empty()
            },
            r matches Err(m) ==> m@ == http_error_message(status as nat),
    {
        if status < 200 || status >= 300 {
            let digits = u64_dec_string(status as u64);
            let m = String::from_str("Error HTTP ").concat(digits.as_str()).concat(
                " al descargar el instalador",
            );
            proof {
                assert(m@ =~= http_error_message(status as nat));
            }
            return Err(m);
        }
        let total: u64 = match content_length {
            Some(n) => n,
            None => 0,
        };
        let s = DownloadSession {
            total,
            downloaded: 0,
            last_percent: 0,
            history: Ghost(Seq::empty()),
        };
        proof {
            assert(sum_of(s.history()) == 0);
        }
        Ok(s)
    }

    /// Bytes streamed so far, for the caller's own bookkeeping.
    pub fn downloaded(&self) -> (r: u64)
        ensures
            r == self.spec_downloaded(),
    {
        self.downloaded
    }

    /// Record one chunk of `n` bytes just written to the destination file
    /// and build the progress event to emit for it: the new byte count is
    /// the sum of every chunk so far, and the percent never decreases and
    /// never exceeds 95 (zero throughout while the total is unknown).
    pub fn record_chunk(&mut self, n: u64) -> (p: DownloadProgress)
        requires
            old(self).wf(),
            old(self).spec_downloaded() + n <= u64::MAX,
        ensures
            final(self).wf(),
            final(self).spec_total() == old(self).spec_total(),
            final(self).spec_downloaded() == old(self).spec_downloaded() + n,
            final(self).history() == old(self).history().push(n),
            p.total == old(self).spec_total(),
            p.downloaded == final(self).spec_downloaded(),
            p.downloaded as int == sum_of(final(self).history()),
            p.percent == spec_percent(p.downloaded as int, p.total as int),
            p.percent >= old(self).spec_last_percent(),
            p.percent <= 95,
            old(self).spec_total() == 0 ==> p.percent == 0,
            final(self).spec_last_percent() == p.percent,
            p.message@ == progress_message(p.percent as nat),
    {
        self.downloaded = self.downloaded + n;
        proof {
            self.history@ = self.history@.push(n);
            assert(self.history@.drop_last() =~= old(self).history());
            lemma_percent_monotone(
                old(self).spec_downloaded() as int,
                self.downloaded as int,
                self.total as int,
            );
            lemma_percent_bounds(self.downloaded as int, self.total as int);
        }
        let percent = percent_of(self.downloaded, self.total);
        self.last_percent = percent;
        let digits = u64_dec_string(percent as u64);
        let m = String::from_str("Descargando... ").concat(digits.as_str()).concat("%");
        proof {
            assert(m@ =~= progress_message(percent as nat));
        }
        DownloadProgress {
            percent,
            downloaded: self.downloaded,
            total: self.total,
            message: m,
        }
    }
}

/// A session whose recorded chunks sum to the declared (known) total has
/// downloaded exactly that many bytes and last reported the full 95
/// percent.
///
/// Law: a download of known content length delivered completely reports,
/// in its last progress event, the total itself as the byte count.
pub proof fn lemma_download_complete(s: DownloadSession)
    requires
        s.wf(),
        s.spec_total() > 0,
        sum_of(s.history()) == s.spec_total() as int,
    ensures
        s.spec_downloaded() == s.spec_total(),
        s.spec_last_percent() == 95,
{
    lemma_percent_complete(s.spec_total() as int);
}

/// Equal generated file names come only from equal timestamps.
proof fn lemma_update_filename_cancels(t1: u64, t2: u64)
    requires
        spec_update_filename(t1) == spec_update_filename(t2),
    ensures
        t1 == t2,
{
    let pre = "JamrockAdmin-update-"@;
    let suf = ".exe"@;
    let d1 = crate::text::dec_digits(t1 as nat);
    let d2 = crate::text::dec_digits(t2 as nat);
    assert(spec_update_filename(t1).len() == pre.len() + d1.len() + suf.len());
    assert(spec_update_filename(t2).len() == pre.len() + d2.len() + suf.len());
    assert(d1.len() == d2.len());
    assert forall|i: int| 0 <= i < d1.len() implies d1[i] == d2[i] by {
        assert(spec_update_filename(t1)[pre.len() + i] == d1[i]);
        assert(spec_update_filename(t2)[pre.len() + i] == d2[i]);
    }
    assert(d1 =~= d2);
    crate::text::lemma_dec_digits_injective(t1 as nat, t2 as nat);
}

/// Distinct timestamps give distinct generated file names.
///
/// Law: two downloads started at different timestamps write to distinct
/// destination files.
pub proof fn lemma_update_filename_injective(t1: u64, t2: u64)
    requires
        t1 != t2,
    ensures
        spec_update_filename(t1) != spec_update_filename(t2),
{
    if spec_update_filename(t1) == spec_update_filename(t2) {
        lemma_update_filename_cancels(t1, t2);
    }
}

/// The destination file name for a download started at `timestamp`
/// (seconds since the epoch): distinct timestamps give distinct names.
pub fn update_filename(timestamp: u64) -> (r: String)
    ensures
        r@ == spec_update_filename(timestamp),
{
    let digits = u64_dec_string(timestamp);
    let r = String::from_str("JamrockAdmin-update-").concat(digits.as_str()).concat(".exe");
    proof {
        assert(r@ =~= spec_update_filename(timestamp));
    }
    r
}

/// Decide whether the installer may be launched: the path must reference
/// an existing file (`exists` is the caller's check of the file system);
/// a missing file fails with the not-found message and no spawn follows.
pub fn launch_precheck(path: &str, exists: bool) -> (r: Result<(), String>)
    ensures
        r is Ok <==> exists,
        r matches Err(m) ==> m@ == not_found_message(path@),
{
    if !exists {
        let m = String::from_str("El instalador no existe en: ").concat(path);
        proof {
            assert(m@ =~= not_found_message(path@));
        }
        Err(m)
    } else {
        Ok(())
    }
}

} // verus!
