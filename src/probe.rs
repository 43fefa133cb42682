//! Choosing between a parallel ranged download and a single serial stream.
use vstd::prelude::*;
use vstd::string::*;

verus! {

/// Status code of a response that honoured a byte-range request.
pub const PARTIAL_CONTENT: u16 = 206;

/// How a download proceeds.
#[derive(Clone, Copy, Debug, PartialEq, Eq, Structural)]
pub enum Strategy {
    /// One request, streamed into the file from the start.
    Serial,
    /// Many ranged requests, each written at its own offset.
    Parallel,
}

/// What the capability probe learned, and the strategy it settled on.
#[derive(Clone, Copy, Debug, PartialEq, Eq, Structural)]
pub struct DownloadPlan {
    pub content_length: Option<u64>,
    pub accepts_ranges: bool,
    pub strategy: Strategy,
}

/// Value of a decimal digit character.
pub open spec fn digit_value(c: char) -> int {
    c as int - '0' as int
}

pub open spec fn is_digit(c: char) -> bool {
    '0' <= c <= '9'
}

/// Value of a non-empty run of decimal digits.
pub open spec fn digits_value(s: Seq<char>) -> int
    decreases s.len(),
{
    if s.len() == 0 {
        0
    } else {
        digits_value(s.drop_last()) * 10 + digit_value(s.last())
    }
}

/// The digits of an unsigned integer's text: all of it, or all after a leading `+`.
pub open spec fn unsigned_digits(s: Seq<char>) -> Seq<char> {
    if s.len() > 0 && s[0] == '+' {
        s.drop_first()
    } else {
        s
    }
}

/// The `u64` that a text denotes: an optional `+` and then at least one decimal digit,
/// with a value that fits in 64 bits. Any other text denotes none.
pub open spec fn u64_of_text(s: Seq<char>) -> Option<u64> {
    let d = unsigned_digits(s);
    if d.len() > 0 && (forall|i: int| 0 <= i < d.len() ==> is_digit(#[trigger] d[i]))
        && digits_value(d) <= u64::MAX {
        Some(digits_value(d) as u64)
    } else {
        None
    }
}

/// Relies on `str::parse::<u64>`, which accepts an optional `+` followed by decimal
/// digits and fails on anything else, including a value above `u64::MAX`.
#[verifier::external_body]
fn parse_u64(s: &str) -> (r: Option<u64>)
    ensures
        r == u64_of_text(s@),
{
    s.parse::<u64>().ok()
}

/// The length that a `Content-Length` header declares, if it is present and a number.
pub fn content_length_of(header: Option<&str>) -> (r: Option<u64>)
    ensures
        r == match header {
            Some(v) => u64_of_text(v@),
            None => None,
        },
{
    match header {
        Some(v) => parse_u64(v),
        None => None,
    }
}

/// Whether an `Accept-Ranges` header announces byte ranges: present and exactly `bytes`.
pub fn accepts_byte_ranges(header: Option<&str>) -> (r: bool)
    ensures
        r == match header {
            Some(v) => v@ == "bytes"@,
            None => false,
        },
{
    proof {
        reveal_strlit("bytes");
    }
    match header {
        Some(v) => {
            let n = v.unicode_len();
            if n != 5 {
                assert(v@.len() != "bytes"@.len());
                return false;
            }
            let ok = v.get_char(0) == 'b' && v.get_char(1) == 'y' && v.get_char(2) == 't'
                && v.get_char(3) == 'e' && v.get_char(4) == 's';
            if ok {
                assert(v@ =~= "bytes"@);
            } else {
                assert(v@ != "bytes"@) by {
                    if v@ == "bytes"@ {
                        assert(v@[0] == 'b' && v@[1] == 'y' && v@[2] == 't' && v@[3] == 'e'
                            && v@[4] == 's');
                    }
                }
            }
            ok
        },
        None => false,
    }
}

/// Whether the metadata probe allows a parallel download, so that the one-byte range
/// request that confirms it is worth sending.
pub open spec fn wants_range_probe_spec(
    content_length: Option<u64>,
    accepts_ranges: bool,
    min_chunk: u64,
) -> bool {
    &&& accepts_ranges
    &&& content_length matches Some(len)
    &&& len > min_chunk
}

/// The strategy for the probe's findings; `probe_status` is the status of the one-byte
/// range request, `None` when it was not sent or failed in transport.
pub open spec fn strategy_spec(
    content_length: Option<u64>,
    accepts_ranges: bool,
    min_chunk: u64,
    probe_status: Option<u16>,
) -> Strategy {
    if wants_range_probe_spec(content_length, accepts_ranges, min_chunk) && probe_status == Some(
        PARTIAL_CONTENT,
    ) {
        Strategy::Parallel
    } else {
        Strategy::Serial
    }
}

/// Whether to send the one-byte range request that confirms range support.
pub fn wants_range_probe(content_length: Option<u64>, accepts_ranges: bool, min_chunk: u64) -> (r:
    bool)
    ensures
        r == wants_range_probe_spec(content_length, accepts_ranges, min_chunk),
{
    match content_length {
        Some(len) => accepts_ranges && len > min_chunk,
        None => false,
    }
}

/// Settles the strategy from both probes: parallel only when the length is known and
/// above the minimum chunk size, ranges are announced, and the range request really
/// came back as partial content.
pub fn plan_download(
    content_length: Option<u64>,
    accepts_ranges: bool,
    min_chunk: u64,
    probe_status: Option<u16>,
) -> (r: DownloadPlan)
    ensures
        r.content_length == content_length,
        r.accepts_ranges == accepts_ranges,
        r.strategy == strategy_spec(content_length, accepts_ranges, min_chunk, probe_status),
{
    let parallel = wants_range_probe(content_length, accepts_ranges, min_chunk) && match probe_status {
        Some(s) => s == PARTIAL_CONTENT,
        None => false,
    };
    DownloadPlan {
        content_length,
        accepts_ranges,
        strategy: if parallel {
            Strategy::Parallel
        } else {
            Strategy::Serial
        },
    }
}

/// The parallel path is taken only when every condition holds: with no length, no range
/// support, a length at most the minimum chunk size, or a confirmation probe that did not
/// return partial content, the download is serial. In particular an empty content is
/// never fetched in parallel.
pub proof fn lemma_serial_unless_confirmed(
    content_length: Option<u64>,
    accepts_ranges: bool,
    min_chunk: u64,
    probe_status: Option<u16>,
)
    ensures
        content_length is None ==> strategy_spec(
            content_length,
            accepts_ranges,
            min_chunk,
            probe_status,
        ) == Strategy::Serial,
        !accepts_ranges ==> strategy_spec(content_length, accepts_ranges, min_chunk, probe_status)
            == Strategy::Serial,
        (content_length matches Some(len) && len <= min_chunk) ==> strategy_spec(
            content_length,
            accepts_ranges,
            min_chunk,
            probe_status,
        ) == Strategy::Serial,
        probe_status != Some(PARTIAL_CONTENT) ==> strategy_spec(
            content_length,
            accepts_ranges,
            min_chunk,
            probe_status,
        ) == Strategy::Serial,
        content_length == Some(0u64) ==> strategy_spec(
            content_length,
            accepts_ranges,
            min_chunk,
            probe_status,
        ) == Strategy::Serial,
        strategy_spec(content_length, accepts_ranges, min_chunk, probe_status) == Strategy::Parallel
            ==> (content_length matches Some(len) && len > min_chunk && len > 0),
{
}

} // verus!
