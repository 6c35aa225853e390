//! Where each access point stands in the text of a geolocation request.

use vstd::prelude::*;
use crate::access_point::AccessPointView;
use crate::decimal::{int_text, leading_int, lemma_int_text};
use crate::request::{
    body_text, entries_text, entry_text, BODY_HEAD, BODY_TAIL, CHANNEL_LABEL, ENTRY_HEAD,
    ENTRY_SEPARATOR, ENTRY_TAIL, SIGNAL_LABEL,
};

verus! {

/// Where the entry of access point `i` begins in the text of a geolocation
/// request for `aps`: the first one after the head, each later one after the
/// entry before it and a separator.
pub open spec fn entry_start(aps: Seq<AccessPointView>, i: int) -> int
    decreases i,
{
    if i <= 0 {
        BODY_HEAD@.len() as int
    } else {
        entry_start(aps, i - 1) + entry_text(aps[i - 1]).len() + ENTRY_SEPARATOR@.len()
    }
}

/// Where the entry of access point `i` ends.
pub open spec fn entry_end(aps: Seq<AccessPointView>, i: int) -> int {
    entry_start(aps, i) + entry_text(aps[i]).len()
}

/// Where an entry begins depends only on the access points before it.
proof fn lemma_entry_start_of_prefix(aps: Seq<AccessPointView>, bps: Seq<AccessPointView>, i: int)
    requires
        0 <= i <= aps.len(),
        i <= bps.len(),
        forall|k: int| 0 <= k < i ==> aps[k] == bps[k],
    ensures
        entry_start(aps, i) == entry_start(bps, i),
    decreases i,
{
    if i > 0 {
        lemma_entry_start_of_prefix(aps, bps, i - 1);
    }
}

/// The entries alone: entry `i` stands at its place, a separator follows it
/// where another entry comes, and nothing follows the last one.
proof fn lemma_entries_layout(aps: Seq<AccessPointView>, i: int)
    requires
        0 <= i < aps.len(),
    ensures
        ({
            let entries = entries_text(aps);
            let start = entry_start(aps, i) - BODY_HEAD@.len();
            let end = entry_end(aps, i) - BODY_HEAD@.len();
            &&& 0 <= start <= end <= entries.len()
            &&& entries.subrange(start, end) == entry_text(aps[i])
            &&& i + 1 < aps.len() ==> {
                &&& end + ENTRY_SEPARATOR@.len() <= entries.len()
                &&& entries.subrange(end, end + ENTRY_SEPARATOR@.len()) == ENTRY_SEPARATOR@
            }
            &&& i + 1 == aps.len() ==> end == entries.len()
        }),
    decreases aps.len(),
{
    let entries = entries_text(aps);
    let start = entry_start(aps, i) - BODY_HEAD@.len();
    let end = entry_end(aps, i) - BODY_HEAD@.len();
    if aps.len() == 1 {
        assert(entries.subrange(start, end) =~= entry_text(aps[i]));
    } else {
        let front = aps.drop_last();
        let before = entries_text(front);
        let last = aps.len() - 1;
        assert(entries == before + ENTRY_SEPARATOR@ + entry_text(aps.last()));
        if i < last {
            lemma_entries_layout(front, i);
            lemma_entry_start_of_prefix(aps, front, i);
            assert(front[i] == aps[i]);
            assert(entries.subrange(start, end) =~= before.subrange(start, end));
            if i + 1 < last {
                assert(entries.subrange(end, end + ENTRY_SEPARATOR@.len()) =~= before.subrange(
                    end,
                    end + ENTRY_SEPARATOR@.len(),
                ));
            } else {
                assert(entries.subrange(end, end + ENTRY_SEPARATOR@.len())
                    =~= ENTRY_SEPARATOR@);
            }
        } else {
            lemma_entries_layout(front, last - 1);
            lemma_entry_start_of_prefix(aps, front, last - 1);
            assert(front[last - 1] == aps[last - 1]);
            assert(start == before.len() + ENTRY_SEPARATOR@.len());
            assert(entries.subrange(start, end) =~= entry_text(aps[i]));
        }
    }
}

/// The text of a geolocation request holds exactly one entry for each access
/// point, in the order given: it begins with the head; the entry of access
/// point `i` stands from `entry_start` to `entry_end`; a separator and then
/// the next entry follow it where another access point comes; and after the
/// last entry the tail closes the text.
pub proof fn lemma_body_layout(aps: Seq<AccessPointView>, i: int)
    requires
        0 <= i < aps.len(),
    ensures
        ({
            let body = body_text(aps);
            let start = entry_start(aps, i);
            let end = entry_end(aps, i);
            &&& body.subrange(0, BODY_HEAD@.len() as int) == BODY_HEAD@
            &&& entry_start(aps, 0) == BODY_HEAD@.len()
            &&& BODY_HEAD@.len() <= start <= end <= body.len() - BODY_TAIL@.len()
            &&& body.subrange(start, end) == entry_text(aps[i])
            &&& i + 1 < aps.len() ==> {
                &&& entry_start(aps, i + 1) <= body.len() - BODY_TAIL@.len()
                &&& body.subrange(end, entry_start(aps, i + 1)) == ENTRY_SEPARATOR@
            }
            &&& i + 1 == aps.len() ==> body.subrange(end, body.len() as int) == BODY_TAIL@
        }),
{
    let body = body_text(aps);
    let entries = entries_text(aps);
    let head = BODY_HEAD@;
    let start = entry_start(aps, i);
    let end = entry_end(aps, i);
    lemma_entries_layout(aps, i);
    assert(body == head + entries + BODY_TAIL@);
    assert(body.subrange(0, head.len() as int) =~= head);
    assert(body.subrange(start, end) =~= entries.subrange(start - head.len(), end - head.len()));
    if i + 1 < aps.len() {
        assert(body.subrange(end, entry_start(aps, i + 1)) =~= entries.subrange(
            end - head.len(),
            end - head.len() + ENTRY_SEPARATOR@.len(),
        ));
    } else {
        assert(body.subrange(end, body.len() as int) =~= BODY_TAIL@);
    }
}

/// Where the hardware address begins in an entry.
pub open spec fn mac_start() -> int {
    ENTRY_HEAD@.len() as int
}

/// Where the signal strength begins in the entry of `ap`.
pub open spec fn signal_start(ap: AccessPointView) -> int {
    mac_start() + ap.mac.len() + SIGNAL_LABEL@.len()
}

/// Where the channel begins in the entry of `ap`.
pub open spec fn channel_start(ap: AccessPointView) -> int {
    signal_start(ap) + int_text(ap.signal_level).len() + CHANNEL_LABEL@.len()
}

/// The entry of an access point holds its hardware address, as it is, under
/// `macAddress`, and the texts of its signal strength and of its channel
/// under `signalStrength` and `channel`; each text reads back as its number.
pub proof fn lemma_entry_fields(ap: AccessPointView)
    ensures
        ({
            let entry = entry_text(ap);
            let mac_end = mac_start() + ap.mac.len();
            let signal_end = signal_start(ap) + int_text(ap.signal_level).len();
            let channel_end = channel_start(ap) + int_text(ap.channel).len();
            &&& entry.len() == channel_end + ENTRY_TAIL@.len()
            &&& entry.subrange(0, mac_start()) == ENTRY_HEAD@
            &&& entry.subrange(mac_start(), mac_end) == ap.mac
            &&& entry.subrange(mac_end, signal_start(ap)) == SIGNAL_LABEL@
            &&& entry.subrange(signal_start(ap), signal_end) == int_text(ap.signal_level)
            &&& leading_int(entry.subrange(signal_start(ap), signal_end)) == Some(ap.signal_level)
            &&& entry.subrange(signal_end, channel_start(ap)) == CHANNEL_LABEL@
            &&& entry.subrange(channel_start(ap), channel_end) == int_text(ap.channel)
            &&& leading_int(entry.subrange(channel_start(ap), channel_end)) == Some(ap.channel)
            &&& entry.subrange(channel_end, entry.len() as int) == ENTRY_TAIL@
        }),
{
    let entry = entry_text(ap);
    let mac_end = mac_start() + ap.mac.len();
    let signal_end = signal_start(ap) + int_text(ap.signal_level).len();
    let channel_end = channel_start(ap) + int_text(ap.channel).len();
    lemma_int_text(ap.signal_level);
    lemma_int_text(ap.channel);
    assert(entry.subrange(0, mac_start()) =~= ENTRY_HEAD@);
    assert(entry.subrange(mac_start(), mac_end) =~= ap.mac);
    assert(entry.subrange(mac_end, signal_start(ap)) =~= SIGNAL_LABEL@);
    assert(entry.subrange(signal_start(ap), signal_end) =~= int_text(ap.signal_level));
    assert(entry.subrange(signal_end, channel_start(ap)) =~= CHANNEL_LABEL@);
    assert(entry.subrange(channel_start(ap), channel_end) =~= int_text(ap.channel));
    assert(entry.subrange(channel_end, entry.len() as int) =~= ENTRY_TAIL@);
}

/// With no access point the text of a geolocation request is the head and
/// the tail: the list of access points is there, and empty.
pub proof fn lemma_body_without_access_points()
    ensures
        body_text(Seq::empty()) == BODY_HEAD@ + BODY_TAIL@,
{
    assert(entries_text(Seq::<AccessPointView>::empty()) =~= Seq::<char>::empty());
    assert(body_text(Seq::empty()) =~= BODY_HEAD@ + BODY_TAIL@);
}

} // verus!
