//! The segment watcher and the upload request it hands to the uploader.
//!
//! The encoder closes one video segment after another under the session's
//! `recordings/` directory, named `chunk_NNNN.mkv` with a zero-padded
//! index. On every scan the watcher takes the directory listing, extracts
//! the highest index among well-formed segment names, and — when that
//! index has not been passed to the uploader yet and its file is in the
//! listing — hands exactly that one segment over and advances its
//! watermark past it. The watermark never moves backwards, so no segment
//! is handed over twice.

use vstd::prelude::*;

use crate::devents::SaveRecordingRequest;
use crate::host;
use crate::text::spec_parse_digits;

verus! {

/// The content type of a segment body PUT to its signed URL.
pub const SEGMENT_CONTENT_TYPE: &'static str = "video/x-matroska";

/// The index encoded in a well-formed segment file name
/// `chunk_<digits>.mkv` with at least four digits, or nothing for any
/// other name.
pub open spec fn spec_parse_chunk_index(name: Seq<char>) -> Option<u32> {
    if name.len() >= 14 && name.subrange(0, 6) == "chunk_"@ && name.subrange(
        name.len() - 4,
        name.len() as int,
    ) == ".mkv"@ {
        spec_parse_digits(name.subrange(6, name.len() - 4))
    } else {
        None
    }
}

/// The digits of a segment index, zero-padded to at least four.
pub open spec fn spec_pad4(n: nat) -> Seq<char> {
    if n < 10 {
        seq!['0', '0', '0'] + crate::json::spec_u64_str(n)
    } else if n < 100 {
        seq!['0', '0'] + crate::json::spec_u64_str(n)
    } else if n < 1000 {
        seq!['0'] + crate::json::spec_u64_str(n)
    } else {
        crate::json::spec_u64_str(n)
    }
}

/// The file name of the segment with the given index.
pub open spec fn spec_chunk_name(n: nat) -> Seq<char> {
    "chunk_"@ + spec_pad4(n) + ".mkv"@
}

/// The highest index among the well-formed segment names of a listing,
/// and zero for a listing without any.
pub open spec fn spec_highest_index(names: Seq<Seq<char>>) -> int
    decreases names.len(),
{
    if names.len() == 0 {
        0
    } else {
        let rest = spec_highest_index(names.drop_last());
        match spec_parse_chunk_index(names.last()) {
            Some(v) => if v > rest {
                v as int
            } else {
                rest
            },
            None => rest,
        }
    }
}

/// Whether the listing holds the given name.
pub open spec fn spec_listing_contains(names: Seq<Seq<char>>, name: Seq<char>) -> bool {
    exists|i: int| 0 <= i < names.len() && names[i] == name
}

/// One watcher scan over a directory listing, against the current
/// watermark: the segment to hand to the uploader, if any, and the new
/// watermark. A segment is handed over exactly when the highest observed
/// index has not been passed yet and its file name is in the listing; the
/// watermark then advances past that index and otherwise stays.
pub open spec fn spec_monitor_step(names: Seq<Seq<char>>, saved: int) -> (Option<Seq<char>>, int) {
    let m = spec_highest_index(names);
    if m >= saved && spec_listing_contains(names, spec_chunk_name(m as nat)) {
        (Some(spec_chunk_name(m as nat)), m + 1)
    } else {
        (None, saved)
    }
}

/// The index of a well-formed segment name, parsed from the name alone.
pub fn parse_chunk_index(name: &str) -> (r: Option<u32>)
    ensures
        r == spec_parse_chunk_index(name@),
{
    proof {
        reveal_strlit("chunk_");
        reveal_strlit(".mkv");
    }
    let len = name.unicode_len();
    if len < 14 {
        return None;
    }
    if name.get_char(0) != 'c' || name.get_char(1) != 'h' || name.get_char(2) != 'u'
        || name.get_char(3) != 'n' || name.get_char(4) != 'k' || name.get_char(5) != '_' {
        proof {
            assert(name@.subrange(0, 6) != "chunk_"@) by {
                assert(forall|k: int|
                    0 <= k < 6 ==> name@.subrange(0, 6)[k] == name@[k]);
            };
        }
        return None;
    }
    proof {
        assert(name@.subrange(0, 6) =~= "chunk_"@);
    }
    if name.get_char(len - 4) != '.' || name.get_char(len - 3) != 'm' || name.get_char(len - 2)
        != 'k' || name.get_char(len - 1) != 'v' {
        proof {
            assert(name@.subrange(name@.len() - 4, name@.len() as int) != ".mkv"@) by {
                let tail = name@.subrange(name@.len() - 4, name@.len() as int);
                assert(tail[0] == name@[name@.len() - 4]);
                assert(tail[1] == name@[name@.len() - 3]);
                assert(tail[2] == name@[name@.len() - 2]);
                assert(tail[3] == name@[name@.len() - 1]);
            };
        }
        return None;
    }
    proof {
        assert(name@.subrange(name@.len() - 4, name@.len() as int) =~= ".mkv"@);
    }
    crate::text::parse_digits_range(name, 6, len - 4)
}

/// The file name of the segment with the given index, the index
/// zero-padded to at least four digits.
pub fn format_chunk_name(n: u32) -> (r: String)
    ensures
        r@ == spec_chunk_name(n as nat),
{
    let mut s = String::from_str("chunk_");
    if n < 10 {
        s.append("000");
        proof {
            reveal_strlit("000");
        }
    } else if n < 100 {
        s.append("00");
        proof {
            reveal_strlit("00");
        }
    } else if n < 1000 {
        s.append("0");
        proof {
            reveal_strlit("0");
        }
    }
    let digits = crate::json::u64_str(n as u64);
    s.append(digits.as_str());
    s.append(".mkv");
    proof {
        assert(s@ =~= spec_chunk_name(n as nat));
    }
    s
}

/// The highest segment index in a directory listing, zero when no entry
/// is a well-formed segment name.
pub fn highest_segment_index(names: &Vec<String>) -> (r: u32)
    ensures
        r as int == spec_highest_index(names.deep_view()),
{
    let mut m: u32 = 0;
    let mut i: usize = 0;
    while i < names.len()
        invariant
            i <= names.len(),
            m as int == spec_highest_index(names.deep_view().subrange(0, i as int)),
        decreases names.len() - i,
    {
        match parse_chunk_index(names[i].as_str()) {
            Some(v) => {
                if v > m {
                    m = v;
                }
            },
            None => {},
        }
        i = i + 1;
        proof {
            let prefix = names.deep_view().subrange(0, i as int);
            assert(prefix.drop_last() =~= names.deep_view().subrange(0, i - 1));
            assert(prefix.last() == names.deep_view()[i - 1]);
        }
    }
    proof {
        assert(names.deep_view().subrange(0, names.deep_view().len() as int) =~= names.deep_view());
    }
    m
}

/// One watcher scan: decides from the directory listing and the current
/// watermark which segment, if any, to hand to the uploader, and returns
/// the advanced watermark. Behaves exactly as `spec_monitor_step` says;
/// in particular the watermark never decreases.
pub fn monitor_step(names: &Vec<String>, saved: u64) -> (r: (Option<String>, u64))
    ensures
        ({
            let (up, w) = spec_monitor_step(names.deep_view(), saved as int);
            &&& r.1 as int == w
            &&& (r.0 is Some <==> up is Some)
            &&& (r.0 is Some ==> r.0->Some_0@ == up->Some_0)
        }),
        r.1 >= saved,
{
    let m = highest_segment_index(names);
    if m as u64 >= saved {
        let candidate = format_chunk_name(m);
        let mut found: bool = false;
        let mut i: usize = 0;
        while i < names.len()
            invariant
                i <= names.len(),
                candidate@ == spec_chunk_name(m as nat),
                found <==> exists|j: int|
                    0 <= j < i && names.deep_view()[j] == candidate@,
            decreases names.len() - i,
        {
            if !found {
                if (&names[i]).eq(&candidate) {
                    found = true;
                    proof {
                        assert(names.deep_view()[i as int] == candidate@);
                    }
                }
            }
            i = i + 1;
        }
        if found {
            proof {
                assert(spec_listing_contains(names.deep_view(), spec_chunk_name(m as nat)));
            }
            (Some(candidate), m as u64 + 1)
        } else {
            proof {
                assert(!spec_listing_contains(names.deep_view(), spec_chunk_name(m as nat)));
            }
            (None, saved)
        }
    } else {
        (None, saved)
    }
}

impl SaveRecordingRequest {
    /// A fresh signed-URL request for one segment of the given session:
    /// new random recording identifier, the reserved numeric fields zero.
    pub fn new(session_id: u128) -> (r: SaveRecordingRequest)
        ensures
            r.session_id == session_id,
            r.start_timestamp_nanos == 0,
            r.duration_ms == 0,
    {
        SaveRecordingRequest {
            recording_id: host::fresh_uuid(),
            session_id,
            start_timestamp_nanos: 0,
            duration_ms: 0,
        }
    }
}

/// The URL of the signed-URL endpoint under the given service base URL.
pub fn fetch_save_url_endpoint(base_url: &str) -> (r: String)
    ensures
        r@ == base_url@ + "/recordings/fetch_save_url"@,
{
    let mut s = String::from_str(base_url);
    s.append("/recordings/fetch_save_url");
    s
}

} // verus!
