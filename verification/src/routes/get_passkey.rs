//! The list of an account's passkeys, newest first.

use vstd::prelude::*;
use crate::database::passkey::Passkey;

verus! {

/// A passkey as the list shows it.
#[derive(Clone, Debug, PartialEq, Eq)]
pub struct PasskeyEntry {
    pub id: String,
    pub friendly_name: String,
}

/// Mathematical content of a [`PasskeyEntry`].
pub ghost struct PasskeyEntryView {
    pub id: Seq<char>,
    pub friendly_name: Seq<char>,
}

impl View for PasskeyEntry {
    type V = PasskeyEntryView;

    open spec fn view(&self) -> PasskeyEntryView {
        PasskeyEntryView { id: self.id@, friendly_name: self.friendly_name@ }
    }
}

/// The millisecond at which an identifier was made: what
/// `Ulid::timestamp_ms` returns on the `Ulid` that the text parses to,
/// `None` where it parses to none.
pub uninterp spec fn id_time(id: Seq<char>) -> Option<u64>;

/// Place of a time in the order of the list: a later time ranks higher,
/// and an identifier that tells no time ranks lowest.
pub open spec fn rank(time: Option<u64>) -> int {
    match time {
        Some(t) => t + 1,
        None => 0,
    }
}

/// The entries that a list of passkeys is shown as, in the order of the
/// passkeys.
pub open spec fn listed(passkeys: Seq<Passkey>) -> Seq<PasskeyEntryView> {
    passkeys.map_values(|p: Passkey| PasskeyEntryView { id: p.id@, friendly_name: p.friendly_name@ })
}

/// Content of a list of entries.
pub open spec fn shown(entries: Seq<PasskeyEntry>) -> Seq<PasskeyEntryView> {
    entries.map_values(|e: PasskeyEntry| e@)
}

/// Whether no entry stands before one that was made later.
pub open spec fn newest_first(entries: Seq<PasskeyEntryView>) -> bool {
    forall|i: int, j: int|
        0 <= i < j < entries.len() ==> rank(id_time(entries[i].id)) >= rank(
            id_time(entries[j].id),
        )
}

/// Where an entry made at `time` goes in a list: behind the entries at the
/// head of the list that were made then or later.
pub open spec fn place(entries: Seq<PasskeyEntryView>, time: Option<u64>) -> int
    decreases entries.len(),
{
    if entries.len() == 0 || rank(id_time(entries[0].id)) < rank(time) {
        0
    } else {
        1 + place(entries.drop_first(), time)
    }
}

/// A list with the newest first: each entry is put, in the order of the
/// list, behind those that were made then or later. Entries that were made
/// in the same millisecond keep the order in which they came.
pub open spec fn ordered(list: Seq<PasskeyEntryView>) -> Seq<PasskeyEntryView>
    decreases list.len(),
{
    if list.len() == 0 {
        Seq::empty()
    } else {
        let rest = ordered(list.drop_last());
        rest.insert(place(rest, id_time(list.last().id)), list.last())
    }
}

/// The place of an entry is within the list, no entry before it was made
/// earlier, and the entry at it, if there is one, was.
pub proof fn place_divides(entries: Seq<PasskeyEntryView>, time: Option<u64>)
    ensures
        0 <= place(entries, time) <= entries.len(),
        forall|j: int|
            0 <= j < place(entries, time) ==> rank(id_time(#[trigger] entries[j].id)) >= rank(time),
        place(entries, time) < entries.len() ==> rank(
            id_time(entries[place(entries, time)].id),
        ) < rank(time),
    decreases entries.len(),
{
    if entries.len() != 0 && rank(id_time(entries[0].id)) >= rank(time) {
        let rest = entries.drop_first();
        place_divides(rest, time);
        assert forall|j: int| 0 <= j < place(entries, time) implies rank(
            id_time(#[trigger] entries[j].id),
        ) >= rank(time) by {
            if j > 0 {
                assert(entries[j] == rest[j - 1]);
            }
        }
        if place(entries, time) < entries.len() {
            assert(entries[place(entries, time)] == rest[place(rest, time)]);
        }
    }
}

/// Putting an entry at its place keeps the newest first.
proof fn placing_keeps_order(entries: Seq<PasskeyEntryView>, entry: PasskeyEntryView)
    requires
        newest_first(entries),
    ensures
        newest_first(entries.insert(place(entries, id_time(entry.id)), entry)),
{
    let time = id_time(entry.id);
    let p = place(entries, time);
    place_divides(entries, time);
    let after = entries.insert(p, entry);
    assert forall|a: int, b: int| 0 <= a < b < after.len() implies rank(id_time(after[a].id))
        >= rank(id_time(after[b].id)) by {
        let x = if a < p { a } else { a - 1 };
        let y = if b < p { b } else { b - 1 };
        if a != p && b != p {
            assert(after[a] == entries[x] && after[b] == entries[y]);
        } else if a == p {
            assert(after[b] == entries[y]);
            assert(rank(id_time(entries[p].id)) < rank(time));
        } else {
            assert(after[a] == entries[x]);
        }
    }
}

/// An ordered list has the newest first.
pub proof fn ordered_is_newest_first(list: Seq<PasskeyEntryView>)
    ensures
        newest_first(ordered(list)),
    decreases list.len(),
{
    if list.len() != 0 {
        ordered_is_newest_first(list.drop_last());
        placing_keeps_order(ordered(list.drop_last()), list.last());
    }
}

/// An ordered list holds the entries of the list it was made of, each as
/// often as it came, and nothing else.
pub proof fn ordered_is_a_rearrangement(list: Seq<PasskeyEntryView>)
    ensures
        ordered(list).len() == list.len(),
        ordered(list).to_multiset() == list.to_multiset(),
    decreases list.len(),
{
    broadcast use vstd::seq_lib::group_to_multiset_ensures;

    if list.len() == 0 {
        assert(ordered(list) =~= list);
    } else {
        let rest = ordered(list.drop_last());
        let entry = list.last();
        let p = place(rest, id_time(entry.id));
        ordered_is_a_rearrangement(list.drop_last());
        place_divides(rest, id_time(entry.id));
        let after = rest.insert(p, entry);
        assert(after.remove(p) =~= rest);
        vstd::seq_lib::to_multiset_remove(after, p);
        assert(after.contains(after[p]));
        assert(after.to_multiset() =~= rest.to_multiset().insert(entry));
        assert(list =~= list.drop_last().push(entry));
        vstd::seq_lib::to_multiset_build(list.drop_last(), entry);
    }
}

/// Whether the first time ranks below the second.
fn older(a: Option<u64>, b: Option<u64>) -> (r: bool)
    ensures
        r == (rank(a) < rank(b)),
{
    match (a, b) {
        (Some(x), Some(y)) => x < y,
        (None, Some(_)) => true,
        (_, None) => false,
    }
}

/// Lists the passkeys of an account with the newest first, by the time
/// that their identifiers tell: see [`ordered`]. The entries are those of
/// the passkeys, each as often as it came.
pub fn handle(passkeys: &Vec<Passkey>) -> (entries: Vec<PasskeyEntry>)
    ensures
        shown(entries@) == ordered(listed(passkeys@)),
        newest_first(shown(entries@)),
        shown(entries@).to_multiset() == listed(passkeys@).to_multiset(),
{
    let mut entries: Vec<PasskeyEntry> = Vec::new();
    let mut times: Vec<Option<u64>> = Vec::new();
    let mut i: usize = 0;
    assert(shown(entries@) =~= ordered(listed(passkeys@).subrange(0, 0)));
    while i < passkeys.len()
        invariant
            i <= passkeys.len(),
            times.len() == entries.len(),
            forall|j: int| 0 <= j < entries.len() ==> times[j] == id_time(#[trigger] entries[j].id@),
            shown(entries@) == ordered(listed(passkeys@).subrange(0, i as int)),
        decreases passkeys.len() - i,
    {
        let entry = PasskeyEntry {
            id: passkeys[i].id.clone(),
            friendly_name: passkeys[i].friendly_name.clone(),
        };
        let time = ulid_millis(&entry.id);
        let ghost before = shown(entries@);
        proof {
            assert forall|j: int| 0 <= j < before.len() implies times[j] == id_time(
                #[trigger] before[j].id,
            ) by {
                assert(before[j].id == entries[j].id@);
            }
            assert(before.subrange(0, before.len() as int) =~= before);
        }
        let mut p: usize = 0;
        while p < times.len() && !older(times[p], time)
            invariant
                p <= times.len(),
                times.len() == before.len(),
                forall|j: int| 0 <= j < before.len() ==> times[j] == id_time(
                    #[trigger] before[j].id,
                ),
                place(before, time) == p + place(
                    before.subrange(p as int, before.len() as int),
                    time,
                ),
            decreases times.len() - p,
        {
            proof {
                let tail = before.subrange(p as int, before.len() as int);
                assert(tail[0] == before[p as int]);
                assert(tail.drop_first() =~= before.subrange(p + 1, before.len() as int));
            }
            p = p + 1;
        }
        proof {
            let tail = before.subrange(p as int, before.len() as int);
            if p < times.len() {
                assert(tail[0] == before[p as int]);
            }
            assert(place(tail, time) == 0);
            let so_far = listed(passkeys@).subrange(0, i as int);
            let next = listed(passkeys@).subrange(0, i + 1);
            assert(next.drop_last() =~= so_far);
            assert(next.last() == entry@);
        }
        entries.insert(p, entry);
        times.insert(p, time);
        assert(shown(entries@) =~= before.insert(p as int, entry@));
        i = i + 1;
    }
    proof {
        assert(listed(passkeys@).subrange(0, passkeys.len() as int) =~= listed(passkeys@));
        ordered_is_newest_first(listed(passkeys@));
        ordered_is_a_rearrangement(listed(passkeys@));
    }
    entries
}

/// `Ulid::from_string` and `Ulid::timestamp_ms`.
#[verifier::external_body]
pub(crate) fn ulid_millis(id: &String) -> (time: Option<u64>)
    ensures
        time == id_time(id@),
{
    Some(ulid::Ulid::from_string(id).ok()?.timestamp_ms())
}

} // verus!
