//! The list of ownerships that a minted token carries, and its wire form.
//!
//! The wire form is a JSON array of objects with the members `url` and
//! `owner`, in this order and without white space. The two strings of each
//! object are written as `serde_json` writes a string.

use crate::data::{record_views, BeatOwnership, DataStructFork, OwnershipView, RecordView};
use crate::json::{json_string, write_json_string};
use vstd::prelude::*;

verus! {

/// The ownership that a record states: its content reference as the link,
/// and its owner.
pub open spec fn ownership_of(record: RecordView) -> OwnershipView {
    OwnershipView { url: record.cid, owner: record.owner }
}

/// The ownerships that a list of records states, one each and in order.
pub open spec fn ownerships_of(records: Seq<RecordView>) -> Seq<OwnershipView> {
    records.map_values(|r: RecordView| ownership_of(r))
}

/// The ownerships of a list as mathematical values, in order.
pub open spec fn ownership_views(beats: Seq<BeatOwnership>) -> Seq<OwnershipView> {
    beats.map_values(|b: BeatOwnership| b@)
}

/// The wire form of one ownership.
pub open spec fn beat_text(beat: OwnershipView) -> Seq<char> {
    "{\"url\":"@ + json_string(beat.url) + ",\"owner\":"@ + json_string(beat.owner) + "}"@
}

/// The wire forms of the ownerships of a list, with a comma between each two.
pub open spec fn beats_joined(beats: Seq<OwnershipView>) -> Seq<char>
    decreases beats.len(),
{
    if beats.len() == 0 {
        Seq::empty()
    } else if beats.len() == 1 {
        beat_text(beats[0])
    } else {
        beats_joined(beats.drop_last()) + ","@ + beat_text(beats.last())
    }
}

/// The wire form of a list of ownerships.
pub open spec fn beats_text(beats: Seq<OwnershipView>) -> Seq<char> {
    "["@ + beats_joined(beats) + "]"@
}

/// Makes the list of ownerships that a list of records states.
pub fn ownerships(records: &Vec<DataStructFork>) -> (res: Vec<BeatOwnership>)
    ensures
        ownership_views(res@) == ownerships_of(record_views(records@)),
{
    let mut beats: Vec<BeatOwnership> = Vec::new();
    let mut i: usize = 0;
    while i < records.len()
        invariant
            i <= records.len(),
            beats.len() == i,
            forall|j: int| 0 <= j < i ==> (#[trigger] beats[j])@ == ownership_of(records[j]@),
        decreases records.len() - i,
    {
        beats.push(records[i].ownership());
        i += 1;
    }
    assert(ownership_views(beats@) =~= ownerships_of(record_views(records@)));
    beats
}

fn beat_string(beat: &BeatOwnership) -> (res: String)
    ensures
        res@ == beat_text(beat@),
{
    let url: String = write_json_string(beat.url.as_str());
    let owner: String = write_json_string(beat.owner.as_str());
    String::from_str("{\"url\":").concat(url.as_str()).concat(",\"owner\":").concat(
        owner.as_str(),
    ).concat("}")
}

/// Writes a list of ownerships in its wire form.
pub fn beats_content(beats: &Vec<BeatOwnership>) -> (res: String)
    ensures
        res@ == beats_text(ownership_views(beats@)),
{
    let ghost views = ownership_views(beats@);
    let mut out: String = String::from_str("[");
    let mut i: usize = 0;
    while i < beats.len()
        invariant
            i <= beats.len(),
            views == ownership_views(beats@),
            out@ == "["@ + beats_joined(views.take(i as int)),
        decreases beats.len() - i,
    {
        let one: String = beat_string(&beats[i]);
        proof {
            let before = views.take(i as int);
            let after = views.take(i + 1);
            assert(after.drop_last() =~= before);
            assert(after.last() == beats[i as int]@);
            if i == 0 {
                assert(beats_joined(before) =~= Seq::<char>::empty());
                assert(beats_joined(after) == beat_text(after[0]));
            }
        }
        if i > 0 {
            out = out.concat(",");
        }
        out = out.concat(one.as_str());
        assert(out@ =~= "["@ + beats_joined(views.take(i + 1)));
        i += 1;
    }
    assert(views.take(beats.len() as int) =~= views);
    out.concat("]")
}

} // verus!
